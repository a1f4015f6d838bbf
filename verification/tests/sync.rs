use mailsync::error::MailError;
use mailsync::message::{FetchedMessage, MailFlag};
use mailsync::sync::{
    build_search_query, plan_batches, process_batch, process_batches, sort_uids, BatchOutcome,
    FETCH_BATCH_SIZE,
};

fn simple_raw(subject: &str) -> Vec<u8> {
    let mut raw = Vec::new();
    raw.extend_from_slice(b"Subject: ");
    raw.extend_from_slice(subject.as_bytes());
    raw.extend_from_slice(b"\r\n\r\nbody\r\n");
    raw
}

fn fetched(uid: u32, subject: &str) -> FetchedMessage {
    FetchedMessage { uid, raw: Some(simple_raw(subject)), flags: vec![MailFlag::Seen] }
}

#[test]
fn no_watermark_searches_all_messages() {
    assert_eq!(build_search_query(None).unwrap(), "ALL");
}

#[test]
fn watermark_is_truncated_to_its_calendar_day() {
    // 2024-03-15T10:00:00Z
    let morning = build_search_query(Some(1_710_496_800_000)).unwrap();
    assert_eq!(morning, "SINCE 15-Mar-2024");
    // 2024-03-15T00:00:00Z: same calendar day, same window.
    let midnight = build_search_query(Some(1_710_460_800_000)).unwrap();
    assert_eq!(morning, midnight);
}

#[test]
fn watermarks_before_the_epoch_are_searchable_too() {
    // The machine's division rounds -1 ms toward zero: second 0, epoch day.
    assert_eq!(build_search_query(Some(-1)).unwrap(), "SINCE 01-Jan-1970");
    assert_eq!(build_search_query(Some(-86_400_000)).unwrap(), "SINCE 31-Dec-1969");
}

#[test]
fn unrepresentable_watermarks_are_a_search_failure() {
    assert!(build_search_query(Some(8_210_266_876_799_999)).is_ok());
    assert!(build_search_query(Some(-8_334_601_228_800_999)).is_ok());
    for out_of_range in [
        8_210_266_876_800_000,
        -8_334_601_228_801_000,
        i64::MAX,
        i64::MIN,
    ] {
        match build_search_query(Some(out_of_range)) {
            Err(MailError::SearchError(_)) => {},
            other => panic!("expected a search error, got {other:?}"),
        }
    }
}

#[test]
fn identifiers_are_sorted_ascending() {
    let sorted = sort_uids(vec![5, 1, 4, 4, 2]);
    assert_eq!(sorted, vec![1, 2, 4, 4, 5]);
}

#[test]
fn batch_size_fifty_splits_120_identifiers_into_three_rounds() {
    assert_eq!(FETCH_BATCH_SIZE, 50);
    let uids: Vec<u32> = (1..=120).rev().collect();
    let rounds = plan_batches(uids);
    assert_eq!(rounds.len(), 3);
    assert_eq!(rounds[0].len(), 50);
    assert_eq!(rounds[1].len(), 50);
    assert_eq!(rounds[2].len(), 20);
    let flat: Vec<u32> = rounds.iter().flatten().copied().collect();
    let expected: Vec<u32> = (1..=120).collect();
    assert_eq!(flat, expected);
}

#[test]
fn zero_matching_identifiers_plan_zero_rounds() {
    let rounds = plan_batches(vec![]);
    assert!(rounds.is_empty());
    let out = process_batches("a", "f", vec![], 0);
    assert!(out.is_empty());
}

#[test]
fn failed_round_does_not_prevent_later_rounds() {
    let outcomes = vec![
        BatchOutcome::Fetched(vec![fetched(1, "one")]),
        BatchOutcome::FetchFailed("connection dropped mid-round".to_string()),
        BatchOutcome::Fetched(vec![fetched(101, "one-oh-one")]),
    ];
    let out = process_batches("a", "f", outcomes, 0);
    assert_eq!(out.len(), 2);
    assert_eq!(out[0].subject, "one");
    assert_eq!(out[1].subject, "one-oh-one");
}

#[test]
fn unparseable_message_is_skipped_but_neighbours_survive() {
    let bad = FetchedMessage { uid: 2, raw: Some(vec![b'\r', b'x']), flags: vec![] };
    let missing = FetchedMessage { uid: 3, raw: None, flags: vec![] };
    let outcomes = vec![
        BatchOutcome::Fetched(vec![fetched(1, "first"), bad, missing, fetched(4, "fourth")]),
        BatchOutcome::Fetched(vec![fetched(60, "later")]),
    ];
    let out = process_batches("a", "f", outcomes, 0);
    assert_eq!(out.len(), 3);
    assert_eq!(out[0].subject, "first");
    assert_eq!(out[1].subject, "fourth");
    assert_eq!(out[2].subject, "later");
}

#[test]
fn one_failed_round_alone_yields_nothing() {
    let out = process_batch("a", "f", &BatchOutcome::FetchFailed("gone".to_string()), 0);
    assert!(out.is_empty());
}
