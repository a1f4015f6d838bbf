use mailsync::compose::{plan_send_body, send_plan, Attachment, BodyPlan, ComposeMessage};
use mailsync::error::MailError;
use mailsync::text::u32_to_string;

fn base_message() -> ComposeMessage {
    ComposeMessage {
        to: vec!["to@example.com".to_string()],
        cc: None,
        bcc: None,
        subject: "s".to_string(),
        body_html: None,
        body_text: None,
        attachments: None,
    }
}

#[test]
fn html_with_text_becomes_an_alternative_pair() {
    let mut msg = base_message();
    msg.body_html = Some("<p>x</p>".to_string());
    msg.body_text = Some("x".to_string());
    match plan_send_body(&msg) {
        BodyPlan::HtmlWithTextAlternative { text, html } => {
            assert_eq!(text, "x");
            assert_eq!(html, "<p>x</p>");
        },
        _ => panic!("expected the alternative shape"),
    }
}

#[test]
fn html_without_text_uses_an_empty_text_part() {
    let mut msg = base_message();
    msg.body_html = Some("<p>x</p>".to_string());
    match plan_send_body(&msg) {
        BodyPlan::HtmlWithTextAlternative { text, html: _ } => assert_eq!(text, ""),
        _ => panic!("expected the alternative shape"),
    }
}

#[test]
fn text_only_stays_plain() {
    let mut msg = base_message();
    msg.body_text = Some("just text".to_string());
    match plan_send_body(&msg) {
        BodyPlan::PlainText { text } => assert_eq!(text, "just text"),
        _ => panic!("expected the plain shape"),
    }
}

#[test]
fn empty_body_stays_plain_and_empty() {
    match plan_send_body(&base_message()) {
        BodyPlan::PlainText { text } => assert_eq!(text, ""),
        _ => panic!("expected the plain shape"),
    }
}

#[test]
fn send_plan_follows_the_submission_table() {
    let g = send_plan("gmail").unwrap();
    assert_eq!(g.host, "smtp.gmail.com");
    assert_eq!(g.port, 465);
    assert!(g.implicit_tls);
    match send_plan("yahoo") {
        Err(MailError::UnsupportedProvider(name)) => assert_eq!(name, "yahoo"),
        _ => panic!("expected an unsupported-provider error"),
    }
}

#[test]
fn attachments_carry_their_bytes() {
    let a = Attachment {
        filename: "a.txt".to_string(),
        content_type: "text/plain".to_string(),
        content: vec![1, 2, 3],
    };
    assert_eq!(a.content, vec![1, 2, 3]);
}

#[test]
fn decimal_rendering_matches_std() {
    assert_eq!(u32_to_string(0), "0");
    assert_eq!(u32_to_string(105), "105");
    assert_eq!(u32_to_string(4294967295), 4294967295u32.to_string());
}
