//! The canonical folder model and the folder synchronizer's decisions.
//!
//! A folder's identifier is derived deterministically from the account and a
//! path-sanitized folder name, so the same remote folder always maps to the
//! same local identifier. A listing that omits the primary inbox gets one
//! synthesized in front; a listing that failed altogether is replaced by a
//! fixed, provider-aware baseline set, never by an error.

use vstd::prelude::*;
use crate::provider::Provider;
use crate::text::{eq_str, push_char};

verus! {

use vstd::string::StringExecFns;
use vstd::string::StrSliceExecFns;

/// A mailbox folder in the canonical local model.
#[derive(Clone, Debug)]
pub struct MailFolder {
    pub id: String,
    pub account_id: String,
    pub name: String,
    pub path: String,
    pub unread_count: i32,
    pub total_count: i32,
    pub sync_at: Option<i64>,
}

/// A folder name with path separators and spaces replaced by dashes.
pub open spec fn spec_sanitized(name: Seq<char>) -> Seq<char> {
    name.map_values(|c: char| if c == '/' || c == ' ' { '-' } else { c })
}

/// Replaces path separators and spaces in a folder name by dashes.
pub fn sanitize_folder_name(name: &str) -> (r: String)
    ensures
        r@ == spec_sanitized(name@),
{
    let n = name.unicode_len();
    let mut out = String::new();
    let mut i: usize = 0;
    while i < n
        invariant
            n == name@.len(),
            i <= n,
            out@ == spec_sanitized(name@.subrange(0, i as int)),
        decreases n - i,
    {
        let c = name.get_char(i);
        if c == '/' || c == ' ' {
            push_char(&mut out, '-');
        } else {
            push_char(&mut out, c);
        }
        i = i + 1;
        proof {
            assert(out@ =~= spec_sanitized(name@.subrange(0, i as int)));
        }
    }
    proof {
        assert(name@.subrange(0, name@.len() as int) =~= name@);
    }
    out
}

/// The local folder identifier: the account, a dash, and the sanitized name.
pub open spec fn spec_folder_id(account: Seq<char>, name: Seq<char>) -> Seq<char> {
    account + "-"@ + spec_sanitized(name)
}

/// Derives the local folder identifier from the account and the folder name.
pub fn folder_id(account_id: &str, name: &str) -> (r: String)
    ensures
        r@ == spec_folder_id(account_id@, name@),
{
    let mut out = String::from_str(account_id);
    out.append("-");
    let sanitized = sanitize_folder_name(name);
    out.append(sanitized.as_str());
    out
}

/// Folder id derivation is a pure function of the account and the sanitized
/// folder name: the same inputs always give the same identifier.
pub proof fn lemma_folder_id_deterministic(
    account1: Seq<char>,
    name1: Seq<char>,
    account2: Seq<char>,
    name2: Seq<char>,
)
    requires
        account1 == account2,
        name1 == name2,
    ensures
        spec_folder_id(account1, name1) == spec_folder_id(account2, name2),
{
}

/// The fields every synchronized folder record carries: derived identifier,
/// owning account, display name, server path, zeroed counts, and the sync
/// timestamp.
pub open spec fn folder_fields(
    f: MailFolder,
    account: Seq<char>,
    id: Seq<char>,
    name: Seq<char>,
    path: Seq<char>,
    now: i64,
) -> bool {
    &&& f.id@ == id
    &&& f.account_id@ == account
    &&& f.name@ == name
    &&& f.path@ == path
    &&& f.unread_count == 0
    &&& f.total_count == 0
    &&& f.sync_at == Some(now)
}

/// Maps one listing entry to a folder record. Counts start at zero: they are
/// not derivable from a plain listing.
pub fn folder_from_entry(account_id: &str, name: &str, now_ms: i64) -> (r: MailFolder)
    ensures
        folder_fields(
            r,
            account_id@,
            spec_folder_id(account_id@, name@),
            name@,
            name@,
            now_ms,
        ),
{
    MailFolder {
        id: folder_id(account_id, name),
        account_id: String::from_str(account_id),
        name: String::from_str(name),
        path: String::from_str(name),
        unread_count: 0,
        total_count: 0,
        sync_at: Some(now_ms),
    }
}

/// Whether a folder record is an inbox entry.
pub open spec fn is_inbox_entry(f: MailFolder) -> bool {
    f.name@ == "INBOX"@ || f.path@ == "INBOX"@
}

/// The synthesized primary inbox for an account.
pub open spec fn inbox_fields(f: MailFolder, account: Seq<char>, now: i64) -> bool {
    folder_fields(f, account, account + "-inbox"@, "INBOX"@, "INBOX"@, now)
}

/// Builds the synthesized primary inbox for an account.
pub fn make_inbox(account_id: &str, now_ms: i64) -> (r: MailFolder)
    ensures
        inbox_fields(r, account_id@, now_ms),
{
    let mut id = String::from_str(account_id);
    id.append("-inbox");
    MailFolder {
        id,
        account_id: String::from_str(account_id),
        name: String::from_str("INBOX"),
        path: String::from_str("INBOX"),
        unread_count: 0,
        total_count: 0,
        sync_at: Some(now_ms),
    }
}

/// The provider-specific path of the sent folder.
pub open spec fn spec_sent_path(p: Provider) -> Seq<char> {
    match p {
        Provider::Gmail => "[Gmail]/Sent Mail"@,
        Provider::Outlook => "Sent Items"@,
    }
}

/// The provider-specific path of the drafts folder.
pub open spec fn spec_drafts_path(p: Provider) -> Seq<char> {
    match p {
        Provider::Gmail => "[Gmail]/Drafts"@,
        Provider::Outlook => "Drafts"@,
    }
}

/// The provider-specific path of the archive folder.
pub open spec fn spec_archive_path(p: Provider) -> Seq<char> {
    match p {
        Provider::Gmail => "[Gmail]/All Mail"@,
        Provider::Outlook => "Archive"@,
    }
}

/// The fixed baseline folder set: inbox, sent, drafts and archive, with
/// provider-specific canonical paths.
pub open spec fn is_baseline_set(
    s: Seq<MailFolder>,
    account: Seq<char>,
    p: Provider,
    now: i64,
) -> bool {
    &&& s.len() == 4
    &&& inbox_fields(s[0], account, now)
    &&& folder_fields(s[1], account, account + "-sent"@, "Sent"@, spec_sent_path(p), now)
    &&& folder_fields(s[2], account, account + "-drafts"@, "Drafts"@, spec_drafts_path(p), now)
    &&& folder_fields(s[3], account, account + "-archive"@, "Archive"@, spec_archive_path(p), now)
}

/// Builds the fixed, provider-aware baseline folder set.
pub fn baseline_folders(account_id: &str, provider: Provider, now_ms: i64) -> (r: Vec<MailFolder>)
    ensures
        is_baseline_set(r@, account_id@, provider, now_ms),
{
    let mut sent_id = String::from_str(account_id);
    sent_id.append("-sent");
    let mut drafts_id = String::from_str(account_id);
    drafts_id.append("-drafts");
    let mut archive_id = String::from_str(account_id);
    archive_id.append("-archive");
    let sent_path = match provider {
        Provider::Gmail => String::from_str("[Gmail]/Sent Mail"),
        Provider::Outlook => String::from_str("Sent Items"),
    };
    let drafts_path = match provider {
        Provider::Gmail => String::from_str("[Gmail]/Drafts"),
        Provider::Outlook => String::from_str("Drafts"),
    };
    let archive_path = match provider {
        Provider::Gmail => String::from_str("[Gmail]/All Mail"),
        Provider::Outlook => String::from_str("Archive"),
    };
    let mut out: Vec<MailFolder> = Vec::new();
    out.push(make_inbox(account_id, now_ms));
    out.push(
        MailFolder {
            id: sent_id,
            account_id: String::from_str(account_id),
            name: String::from_str("Sent"),
            path: sent_path,
            unread_count: 0,
            total_count: 0,
            sync_at: Some(now_ms),
        },
    );
    out.push(
        MailFolder {
            id: drafts_id,
            account_id: String::from_str(account_id),
            name: String::from_str("Drafts"),
            path: drafts_path,
            unread_count: 0,
            total_count: 0,
            sync_at: Some(now_ms),
        },
    );
    out.push(
        MailFolder {
            id: archive_id,
            account_id: String::from_str(account_id),
            name: String::from_str("Archive"),
            path: archive_path,
            unread_count: 0,
            total_count: 0,
            sync_at: Some(now_ms),
        },
    );
    out
}

/// The outcome of the folder listing request, as the transport layer saw it.
pub enum ListingOutcome {
    /// The listing succeeded with these folder names.
    Listed(Vec<String>),
    /// The listing request itself failed.
    Failed,
}

/// Whether a listing contains the canonical inbox name.
pub open spec fn has_inbox_name(names: Seq<Seq<char>>) -> bool {
    exists|i: int| 0 <= i < names.len() && names[i] == "INBOX"@
}

/// How a successful listing maps to folder records: each entry in order, with
/// a synthesized inbox prepended when the listing omits it.
pub open spec fn listing_mapped(
    r: Seq<MailFolder>,
    account: Seq<char>,
    names: Seq<Seq<char>>,
    now: i64,
) -> bool {
    if has_inbox_name(names) {
        &&& r.len() == names.len()
        &&& forall|i: int|
            0 <= i < names.len() ==> folder_fields(
                #[trigger] r[i],
                account,
                spec_folder_id(account, names[i]),
                names[i],
                names[i],
                now,
            )
    } else {
        &&& r.len() == names.len() + 1
        &&& inbox_fields(r[0], account, now)
        &&& forall|i: int|
            0 <= i < names.len() ==> folder_fields(
                #[trigger] r[i + 1],
                account,
                spec_folder_id(account, names[i]),
                names[i],
                names[i],
                now,
            )
    }
}

/// Maps the outcome of a folder listing into the canonical folder list.
///
/// A successful listing is mapped entry by entry, with the primary inbox
/// synthesized in front when absent. A failed listing falls back to the
/// baseline set: a broken listing never surfaces as an error.
pub fn resolve_folder_listing(
    account_id: &str,
    provider: Provider,
    outcome: ListingOutcome,
    now_ms: i64,
) -> (r: Vec<MailFolder>)
    ensures
        outcome matches ListingOutcome::Failed ==> is_baseline_set(
            r@,
            account_id@,
            provider,
            now_ms,
        ),
        outcome matches ListingOutcome::Listed(names) ==> listing_mapped(
            r@,
            account_id@,
            names.deep_view(),
            now_ms,
        ),
{
    match outcome {
        ListingOutcome::Failed => baseline_folders(account_id, provider, now_ms),
        ListingOutcome::Listed(names) => {
            let ghost names_view = names.deep_view();
            let n = names.len();
            let mut mapped: Vec<MailFolder> = Vec::new();
            let mut found_inbox = false;
            let mut i: usize = 0;
            while i < n
                invariant
                    n == names@.len(),
                    names_view == names.deep_view(),
                    i <= n,
                    mapped@.len() == i,
                    forall|j: int|
                        0 <= j < i ==> folder_fields(
                            #[trigger] mapped@[j],
                            account_id@,
                            spec_folder_id(account_id@, names_view[j]),
                            names_view[j],
                            names_view[j],
                            now_ms,
                        ),
                    found_inbox <==> exists|j: int| 0 <= j < i && names_view[j] == "INBOX"@,
                decreases n - i,
            {
                proof {
                    assert(names_view[i as int] == names@[i as int]@);
                }
                let entry = folder_from_entry(account_id, names[i].as_str(), now_ms);
                if eq_str(names[i].as_str(), "INBOX") {
                    found_inbox = true;
                    proof {
                        assert(names_view[i as int] == "INBOX"@);
                    }
                }
                mapped.push(entry);
                i = i + 1;
            }
            if !found_inbox {
                mapped.insert(0, make_inbox(account_id, now_ms));
            }
            mapped
        },
    }
}

/// When the listing omits the inbox, the mapped result contains exactly one
/// inbox entry — the synthesized one in front, with the canonical inbox path —
/// and every other entry keeps its listed name.
pub proof fn lemma_inbox_guaranteed(
    r: Seq<MailFolder>,
    account: Seq<char>,
    names: Seq<Seq<char>>,
    now: i64,
)
    requires
        listing_mapped(r, account, names, now),
        !has_inbox_name(names),
    ensures
        r.len() > 0,
        is_inbox_entry(r[0]),
        r[0].path@ == "INBOX"@,
        forall|i: int| 1 <= i < r.len() ==> !is_inbox_entry(#[trigger] r[i]),
{
    assert forall|i: int| 1 <= i < r.len() implies !is_inbox_entry(#[trigger] r[i]) by {
        assert(folder_fields(
            r[(i - 1) + 1],
            account,
            spec_folder_id(account, names[i - 1]),
            names[i - 1],
            names[i - 1],
            now,
        ));
        if names[i - 1] == "INBOX"@ {
            assert(has_inbox_name(names));
        }
    }
}

/// When the listing request itself failed, the fallback is a non-empty,
/// provider-appropriate baseline set whose first entry is the inbox; the
/// folder synchronizer never turns a listing failure into an error.
pub proof fn lemma_listing_failure_fallback(
    r: Seq<MailFolder>,
    account: Seq<char>,
    p: Provider,
    now: i64,
)
    requires
        is_baseline_set(r, account, p, now),
    ensures
        r.len() == 4,
        is_inbox_entry(r[0]),
        r[0].path@ == "INBOX"@,
        forall|i: int| 1 <= i < r.len() ==> !is_inbox_entry(#[trigger] r[i]),
        forall|i: int| 0 <= i < r.len() ==> #[trigger] r[i].account_id@ == account,
{
    reveal_strlit("INBOX");
    reveal_strlit("Sent");
    reveal_strlit("Drafts");
    reveal_strlit("Archive");
    reveal_strlit("[Gmail]/Sent Mail");
    reveal_strlit("Sent Items");
    reveal_strlit("[Gmail]/Drafts");
    reveal_strlit("[Gmail]/All Mail");
    assert("Sent"@.len() == 4 && "INBOX"@.len() == 5);
}

} // verus!
