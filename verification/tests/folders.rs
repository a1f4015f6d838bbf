use mailsync::folder::{
    baseline_folders, folder_from_entry, folder_id, make_inbox, resolve_folder_listing,
    sanitize_folder_name, ListingOutcome,
};
use mailsync::provider::Provider;

#[test]
fn folder_names_are_sanitized() {
    assert_eq!(sanitize_folder_name("[Gmail]/Sent Mail"), "[Gmail]-Sent-Mail");
    assert_eq!(sanitize_folder_name("INBOX"), "INBOX");
    assert_eq!(sanitize_folder_name("a b/c"), "a-b-c");
}

#[test]
fn folder_id_is_deterministic() {
    let first = folder_id("acc1", "[Gmail]/Sent Mail");
    let second = folder_id("acc1", "[Gmail]/Sent Mail");
    assert_eq!(first, "acc1-[Gmail]-Sent-Mail");
    assert_eq!(first, second);
    assert_eq!(folder_id("acc1", "Work"), "acc1-Work");
}

#[test]
fn mapped_entry_carries_derived_id_and_zero_counts() {
    let f = folder_from_entry("acc1", "Some Folder", 77);
    assert_eq!(f.id, "acc1-Some-Folder");
    assert_eq!(f.account_id, "acc1");
    assert_eq!(f.name, "Some Folder");
    assert_eq!(f.path, "Some Folder");
    assert_eq!(f.unread_count, 0);
    assert_eq!(f.total_count, 0);
    assert_eq!(f.sync_at, Some(77));
}

#[test]
fn listing_with_inbox_is_kept_as_is() {
    let names = vec!["INBOX".to_string(), "Work".to_string()];
    let out = resolve_folder_listing("acc1", Provider::Gmail, ListingOutcome::Listed(names), 9);
    assert_eq!(out.len(), 2);
    assert_eq!(out[0].name, "INBOX");
    assert_eq!(out[1].name, "Work");
    assert_eq!(out[1].id, "acc1-Work");
}

#[test]
fn listing_without_inbox_gets_exactly_one_synthesized_inbox() {
    let names = vec!["Work".to_string(), "Personal News".to_string()];
    let out = resolve_folder_listing("acc1", Provider::Gmail, ListingOutcome::Listed(names), 9);
    assert_eq!(out.len(), 3);
    assert_eq!(out[0].name, "INBOX");
    assert_eq!(out[0].path, "INBOX");
    assert_eq!(out[0].id, "acc1-inbox");
    let inbox_entries = out
        .iter()
        .filter(|f| f.name == "INBOX" || f.path == "INBOX")
        .count();
    assert_eq!(inbox_entries, 1);
    assert_eq!(out[1].name, "Work");
    assert_eq!(out[2].name, "Personal News");
}

#[test]
fn failed_listing_falls_back_to_gmail_baseline() {
    let out = resolve_folder_listing("acc1", Provider::Gmail, ListingOutcome::Failed, 3);
    assert_eq!(out.len(), 4);
    assert_eq!(out[0].path, "INBOX");
    assert_eq!(out[1].path, "[Gmail]/Sent Mail");
    assert_eq!(out[2].path, "[Gmail]/Drafts");
    assert_eq!(out[3].path, "[Gmail]/All Mail");
    assert_eq!(out[1].id, "acc1-sent");
    assert_eq!(out[2].id, "acc1-drafts");
    assert_eq!(out[3].id, "acc1-archive");
}

#[test]
fn failed_listing_falls_back_to_outlook_baseline() {
    let out = resolve_folder_listing("acc2", Provider::Outlook, ListingOutcome::Failed, 3);
    assert_eq!(out.len(), 4);
    assert_eq!(out[0].path, "INBOX");
    assert_eq!(out[1].path, "Sent Items");
    assert_eq!(out[2].path, "Drafts");
    assert_eq!(out[3].path, "Archive");
}

#[test]
fn synthesized_inbox_has_canonical_fields() {
    let f = make_inbox("acc9", 12);
    assert_eq!(f.id, "acc9-inbox");
    assert_eq!(f.name, "INBOX");
    assert_eq!(f.path, "INBOX");
    assert_eq!(f.sync_at, Some(12));
}

#[test]
fn baseline_is_non_empty_for_both_providers() {
    assert!(!baseline_folders("a", Provider::Gmail, 0).is_empty());
    assert!(!baseline_folders("a", Provider::Outlook, 0).is_empty());
}
