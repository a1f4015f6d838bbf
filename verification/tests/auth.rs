use base64::Engine;
use mailsync::auth::{build_xoauth2_credential, classify_connect_failure, connection_plan, ConnectStep};
use mailsync::error::MailError;

#[test]
fn xoauth2_credential_is_base64_of_the_sasl_string() {
    let cred = build_xoauth2_credential("a@b.c", "tok");
    assert_eq!(cred, "dXNlcj1hQGIuYwFhdXRoPUJlYXJlciB0b2sBAQ==");
}

#[test]
fn xoauth2_credential_matches_the_engine_directly() {
    let cred = build_xoauth2_credential("x@y.z", "t2");
    let plain = format!("user={}\x01auth=Bearer {}\x01\x01", "x@y.z", "t2");
    let expected = base64::engine::general_purpose::STANDARD.encode(plain.as_bytes());
    assert_eq!(cred, expected);
}

#[test]
fn connection_plan_resolves_gmail() {
    let plan = connection_plan("gmail", "a@b.c", "tok").unwrap();
    assert_eq!(plan.host, "imap.gmail.com");
    assert_eq!(plan.port, 993);
    assert_eq!(plan.sasl_credential, b"user=a@b.c\x01auth=Bearer tok\x01\x01".to_vec());
    // Encoding the plan's raw SASL string gives exactly the wire credential.
    let encoded = base64::engine::general_purpose::STANDARD.encode(&plan.sasl_credential);
    assert_eq!(encoded, build_xoauth2_credential("a@b.c", "tok"));
}

#[test]
fn connection_plan_rejects_unknown_provider() {
    match connection_plan("imap.example.org", "a@b.c", "tok") {
        Err(MailError::UnsupportedProvider(name)) => assert_eq!(name, "imap.example.org"),
        _ => panic!("expected an unsupported-provider error"),
    }
}

#[test]
fn connect_failures_classify_by_step() {
    assert!(matches!(
        classify_connect_failure(ConnectStep::Tcp, "gmail".to_string(), "refused".to_string()),
        MailError::TransportError(_)
    ));
    assert!(matches!(
        classify_connect_failure(ConnectStep::Tls, "gmail".to_string(), "handshake".to_string()),
        MailError::TlsError(_)
    ));
    match classify_connect_failure(ConnectStep::Auth, "gmail".to_string(), "bad token".to_string())
    {
        MailError::AuthenticationError(provider, detail) => {
            assert_eq!(provider, "gmail");
            assert_eq!(detail, "bad token");
        },
        _ => panic!("expected an authentication error"),
    }
}
