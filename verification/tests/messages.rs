use mailsync::message::{parse_message, FetchedMessage, MailFlag};

fn full_raw() -> Vec<u8> {
    let mut raw = Vec::new();
    raw.extend_from_slice(b"Subject: Hello\r\n");
    raw.extend_from_slice(b"From: alice@example.com\r\n");
    raw.extend_from_slice(b"Date: Tue, 1 Aug 2023 12:00:00 +0000\r\n");
    raw.extend_from_slice(b"Message-ID: <m1@example.com>\r\n");
    raw.extend_from_slice(b"Content-Type: multipart/alternative; boundary=\"b\"\r\n");
    raw.extend_from_slice(b"\r\n");
    raw.extend_from_slice(b"--b\r\nContent-Type: text/plain\r\n\r\nplain body\r\n");
    raw.extend_from_slice(b"--b\r\nContent-Type: text/html\r\n\r\n<p>html body</p>\r\n");
    raw.extend_from_slice(b"--b--\r\n");
    raw
}

#[test]
fn full_message_is_parsed_with_all_headers() {
    let fm = FetchedMessage { uid: 42, raw: Some(full_raw()), flags: vec![MailFlag::Seen] };
    let m = parse_message("acc1", "acc1-inbox", &fm, 999).unwrap();
    assert_eq!(m.id, "acc1-msg-42");
    assert_eq!(m.account_id, "acc1");
    assert_eq!(m.folder_id, "acc1-inbox");
    assert_eq!(m.uid, 42);
    assert_eq!(m.subject, "Hello");
    assert_eq!(m.from_address, "alice@example.com");
    assert_eq!(m.message_id, "<m1@example.com>");
    assert_eq!(m.date, 1690891200000);
    assert_eq!(m.synced_at, 999);
    assert!(m.is_read);
    assert!(!m.is_starred);
    assert_eq!(m.flags, vec!["Seen".to_string()]);
    let html = m.html.expect("an html sub-part was declared");
    assert!(html.contains("<p>html body</p>"));
}

#[test]
fn missing_headers_take_their_fallbacks() {
    let raw = b"X-Other: nothing\r\n\r\nbody text\r\n".to_vec();
    let fm = FetchedMessage { uid: 7, raw: Some(raw), flags: vec![] };
    let m = parse_message("acc1", "f1", &fm, 4242).unwrap();
    assert_eq!(m.subject, "No Subject");
    assert_eq!(m.from_address, "unknown@example.com");
    assert_eq!(m.message_id, "msg-7");
    assert_eq!(m.id, "acc1-msg-7");
    assert_eq!(m.date, 4242);
    assert!(m.text.unwrap().contains("body text"));
    assert_eq!(m.html, None);
}

#[test]
fn unparseable_date_takes_the_fallback_timestamp() {
    let raw = b"Subject: s\r\nDate: not a date at all\r\n\r\nx\r\n".to_vec();
    let fm = FetchedMessage { uid: 1, raw: Some(raw), flags: vec![] };
    let m = parse_message("a", "f", &fm, 1234).unwrap();
    assert_eq!(m.date, 1234);
}

#[test]
fn rfc3339_date_is_accepted_too() {
    let raw = b"Subject: s\r\nDate: 2023-08-01T12:00:00+00:00\r\n\r\nx\r\n".to_vec();
    let fm = FetchedMessage { uid: 1, raw: Some(raw), flags: vec![] };
    let m = parse_message("a", "f", &fm, 1234).unwrap();
    assert_eq!(m.date, 1690891200000);
}

#[test]
fn message_without_body_is_excluded() {
    let fm = FetchedMessage { uid: 3, raw: None, flags: vec![] };
    assert!(parse_message("a", "f", &fm, 0).is_none());
}

#[test]
fn unparseable_mime_is_excluded() {
    // A lone CR in the header section is rejected by the MIME parser.
    let fm = FetchedMessage { uid: 3, raw: Some(vec![b'\r', b'x']), flags: vec![] };
    assert!(parse_message("a", "f", &fm, 0).is_none());
}

#[test]
fn flags_project_to_read_and_starred() {
    let raw = b"Subject: s\r\n\r\nx\r\n".to_vec();
    let fm = FetchedMessage {
        uid: 9,
        raw: Some(raw),
        flags: vec![MailFlag::Flagged, MailFlag::Custom("Important".to_string())],
    };
    let m = parse_message("a", "f", &fm, 0).unwrap();
    assert!(!m.is_read);
    assert!(m.is_starred);
    assert_eq!(m.flags, vec!["Flagged".to_string(), "Important".to_string()]);
}
