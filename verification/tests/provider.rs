use mailsync::error::MailError;
use mailsync::provider::{imap_endpoint, parse_provider, require_provider, smtp_endpoint, Provider};

#[test]
fn known_providers_resolve() {
    assert_eq!(parse_provider("gmail"), Some(Provider::Gmail));
    assert_eq!(parse_provider("outlook"), Some(Provider::Outlook));
}

#[test]
fn unknown_provider_is_rejected() {
    assert_eq!(parse_provider("fastmail"), None);
    assert_eq!(parse_provider(""), None);
    assert_eq!(parse_provider("Gmail"), None);
    match require_provider("fastmail") {
        Err(MailError::UnsupportedProvider(name)) => assert_eq!(name, "fastmail"),
        _ => panic!("expected an unsupported-provider error"),
    }
}

#[test]
fn imap_endpoints_follow_the_fixed_table() {
    let g = imap_endpoint(Provider::Gmail);
    assert_eq!(g.host, "imap.gmail.com");
    assert_eq!(g.port, 993);
    let o = imap_endpoint(Provider::Outlook);
    assert_eq!(o.host, "outlook.office365.com");
    assert_eq!(o.port, 993);
}

#[test]
fn smtp_endpoints_follow_the_fixed_table() {
    let g = smtp_endpoint(Provider::Gmail);
    assert_eq!(g.host, "smtp.gmail.com");
    assert_eq!(g.port, 465);
    assert!(g.implicit_tls);
    let o = smtp_endpoint(Provider::Outlook);
    assert_eq!(o.host, "smtp.office365.com");
    assert_eq!(o.port, 587);
    assert!(!o.implicit_tls);
}
