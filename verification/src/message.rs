//! The canonical message model and the per-message parsing pipeline.
//!
//! A fetched raw message is parsed into the canonical model with defined
//! fallbacks: a missing subject becomes `No Subject`, a missing sender a
//! placeholder address, and a missing or unparseable date header the supplied
//! wall-clock timestamp — a broken date never drops the message. Only a raw
//! message that fails MIME parsing altogether is excluded.

use vstd::prelude::*;
use crate::text::{eq_str, spec_dec_str, u32_to_string};
use mailparse::MailHeaderMap;

verus! {

use vstd::string::StringExecFns;

/// A server-maintained per-message flag in the canonical model.
#[derive(Clone, Debug)]
pub enum MailFlag {
    Seen,
    Answered,
    Flagged,
    Deleted,
    Draft,
    Recent,
    Custom(String),
}

/// The display label of a flag; a custom flag keeps its own name.
pub open spec fn spec_flag_label(f: MailFlag) -> Seq<char> {
    match f {
        MailFlag::Seen => "Seen"@,
        MailFlag::Answered => "Answered"@,
        MailFlag::Flagged => "Flagged"@,
        MailFlag::Deleted => "Deleted"@,
        MailFlag::Draft => "Draft"@,
        MailFlag::Recent => "Recent"@,
        MailFlag::Custom(s) => s@,
    }
}

/// Renders the display label of a flag.
pub fn flag_label(f: &MailFlag) -> (r: String)
    ensures
        r@ == spec_flag_label(*f),
{
    match f {
        MailFlag::Seen => String::from_str("Seen"),
        MailFlag::Answered => String::from_str("Answered"),
        MailFlag::Flagged => String::from_str("Flagged"),
        MailFlag::Deleted => String::from_str("Deleted"),
        MailFlag::Draft => String::from_str("Draft"),
        MailFlag::Recent => String::from_str("Recent"),
        MailFlag::Custom(s) => s.clone(),
    }
}

/// Whether the seen flag is present.
pub open spec fn spec_has_seen(flags: Seq<MailFlag>) -> bool {
    exists|i: int| 0 <= i < flags.len() && flags[i] is Seen
}

/// Whether the flagged (starred) flag is present.
pub open spec fn spec_has_flagged(flags: Seq<MailFlag>) -> bool {
    exists|i: int| 0 <= i < flags.len() && flags[i] is Flagged
}

/// Tests for the seen flag.
pub fn contains_seen(flags: &Vec<MailFlag>) -> (r: bool)
    ensures
        r == spec_has_seen(flags@),
{
    let mut i: usize = 0;
    while i < flags.len()
        invariant
            i <= flags@.len(),
            !spec_has_seen(flags@.subrange(0, i as int)),
        decreases flags@.len() - i,
    {
        if matches!(&flags[i], MailFlag::Seen) {
            assert(flags@[i as int] is Seen);
            return true;
        }
        i = i + 1;
        proof {
            assert(forall|j: int|
                0 <= j < i ==> flags@.subrange(0, i as int)[j] == flags@[j]);
        }
    }
    proof {
        assert(flags@.subrange(0, flags@.len() as int) =~= flags@);
    }
    false
}

/// Tests for the flagged (starred) flag.
pub fn contains_flagged(flags: &Vec<MailFlag>) -> (r: bool)
    ensures
        r == spec_has_flagged(flags@),
{
    let mut i: usize = 0;
    while i < flags.len()
        invariant
            i <= flags@.len(),
            !spec_has_flagged(flags@.subrange(0, i as int)),
        decreases flags@.len() - i,
    {
        if matches!(&flags[i], MailFlag::Flagged) {
            assert(flags@[i as int] is Flagged);
            return true;
        }
        i = i + 1;
        proof {
            assert(forall|j: int|
                0 <= j < i ==> flags@.subrange(0, i as int)[j] == flags@[j]);
        }
    }
    proof {
        assert(flags@.subrange(0, flags@.len() as int) =~= flags@);
    }
    false
}

/// Whether mailparse's `parse_mail` accepts the raw message.
pub uninterp spec fn mime_parse_ok(raw: Seq<u8>) -> bool;

/// The first value of the named header in the parsed message.
pub uninterp spec fn mime_header_value(raw: Seq<u8>, name: Seq<char>) -> Option<Seq<char>>;

/// The best-effort plain-text body of the parsed message.
pub uninterp spec fn mime_text_body(raw: Seq<u8>) -> Option<Seq<char>>;

/// How many direct sub-parts the parsed message has.
pub uninterp spec fn mime_subpart_count(raw: Seq<u8>) -> nat;

/// The declared content type of one direct sub-part.
pub uninterp spec fn mime_subpart_type(raw: Seq<u8>, i: int) -> Seq<char>;

/// The decoded body of one direct sub-part, if it decodes.
pub uninterp spec fn mime_subpart_body(raw: Seq<u8>, i: int) -> Option<Seq<char>>;

/// Relies on mailparse's `parse_mail`: whether a raw message parses is a
/// function of the bytes alone.
#[verifier::external_body]
fn mime_parses(raw: &[u8]) -> (r: bool)
    ensures
        r == mime_parse_ok(raw@),
{
    mailparse::parse_mail(raw).is_ok()
}

/// Relies on mailparse's `MailHeaderMap::get_first_value` on the parsed
/// message: the first value of the named header, a function of the bytes and
/// the header name alone.
#[verifier::external_body]
fn mime_first_header(raw: &[u8], name: &str) -> (r: Option<String>)
    requires
        mime_parse_ok(raw@),
    ensures
        r.deep_view() == mime_header_value(raw@, name@),
{
    let m = mailparse::parse_mail(raw).unwrap();
    m.headers.get_first_value(name)
}

/// Relies on mailparse's `ParsedMail::get_body` on the parsed message: the
/// decoded top-level body, a function of the bytes alone.
#[verifier::external_body]
fn mime_plain_body(raw: &[u8]) -> (r: Option<String>)
    requires
        mime_parse_ok(raw@),
    ensures
        r.deep_view() == mime_text_body(raw@),
{
    let m = mailparse::parse_mail(raw).unwrap();
    m.get_body().ok()
}

/// Relies on mailparse's `ParsedMail::subparts` vector: its length is a
/// function of the bytes alone.
#[verifier::external_body]
fn mime_subpart_len(raw: &[u8]) -> (r: usize)
    requires
        mime_parse_ok(raw@),
    ensures
        r as nat == mime_subpart_count(raw@),
{
    let m = mailparse::parse_mail(raw).unwrap();
    m.subparts.len()
}

/// Relies on mailparse's `ParsedContentType::mimetype` of one sub-part: the
/// declared content type, a function of the bytes and the index alone.
#[verifier::external_body]
fn mime_subpart_mimetype(raw: &[u8], i: usize) -> (r: String)
    requires
        mime_parse_ok(raw@),
        (i as nat) < mime_subpart_count(raw@),
    ensures
        r@ == mime_subpart_type(raw@, i as int),
{
    let m = mailparse::parse_mail(raw).unwrap();
    m.subparts[i].ctype.mimetype.clone()
}

/// Relies on mailparse's `ParsedMail::get_body` on one sub-part: the decoded
/// sub-part body, a function of the bytes and the index alone.
#[verifier::external_body]
fn mime_subpart_text(raw: &[u8], i: usize) -> (r: Option<String>)
    requires
        mime_parse_ok(raw@),
        (i as nat) < mime_subpart_count(raw@),
    ensures
        r.deep_view() == mime_subpart_body(raw@, i as int),
{
    let m = mailparse::parse_mail(raw).unwrap();
    m.subparts[i].get_body().ok()
}

/// The timestamp in milliseconds that a date header denotes, if either
/// accepted date format parses it.
pub uninterp spec fn rfc_date_millis(s: Seq<char>) -> Option<int>;

/// Relies on chrono's `DateTime::parse_from_rfc2822`,
/// `DateTime::parse_from_rfc3339` and `timestamp_millis`: which strings the
/// two accepted formats parse, and the resulting timestamp, are functions of
/// the characters alone.
#[verifier::external_body]
fn parse_mail_date(s: &str) -> (r: Option<i64>)
    ensures
        r matches Some(ms) ==> rfc_date_millis(s@) == Some(ms as int),
        r is None ==> rfc_date_millis(s@) is None,
{
    chrono::DateTime::parse_from_rfc2822(s)
        .or_else(|_| chrono::DateTime::parse_from_rfc3339(s))
        .map(|dt| dt.timestamp_millis())
        .ok()
}

/// The index of the first direct sub-part declared `text/html`, from `i` on.
pub open spec fn spec_first_html_index(raw: Seq<u8>, i: nat) -> Option<nat>
    decreases mime_subpart_count(raw) - i,
    when i <= mime_subpart_count(raw)
{
    if i >= mime_subpart_count(raw) {
        None
    } else if mime_subpart_type(raw, i as int) == "text/html"@ {
        Some(i)
    } else {
        spec_first_html_index(raw, i + 1)
    }
}

/// The HTML body: the decoded body of the first sub-part declared
/// `text/html`, if any.
pub open spec fn spec_html_body(raw: Seq<u8>) -> Option<Seq<char>> {
    match spec_first_html_index(raw, 0) {
        Some(i) => mime_subpart_body(raw, i as int),
        None => None,
    }
}

/// Finds the first sub-part declared `text/html` and decodes its body.
fn extract_html_body(raw: &[u8]) -> (r: Option<String>)
    requires
        mime_parse_ok(raw@),
    ensures
        r.deep_view() == spec_html_body(raw@),
{
    let n = mime_subpart_len(raw);
    let mut i: usize = 0;
    while i < n
        invariant
            mime_parse_ok(raw@),
            n as nat == mime_subpart_count(raw@),
            i <= n,
            spec_first_html_index(raw@, 0) == spec_first_html_index(raw@, i as nat),
        decreases n - i,
    {
        let t = mime_subpart_mimetype(raw, i);
        if eq_str(t.as_str(), "text/html") {
            assert(spec_first_html_index(raw@, i as nat) == Some(i as nat));
            return mime_subpart_text(raw, i);
        }
        i = i + 1;
    }
    None
}

/// A mailbox message in the canonical local model.
#[derive(Clone, Debug)]
pub struct MailMessage {
    pub id: String,
    pub account_id: String,
    pub folder_id: String,
    pub uid: u32,
    pub message_id: String,
    pub subject: String,
    pub from_name: Option<String>,
    pub from_address: String,
    pub to_addresses: Vec<String>,
    pub cc_addresses: Option<Vec<String>>,
    pub bcc_addresses: Option<Vec<String>>,
    pub date: i64,
    pub text: Option<String>,
    pub html: Option<String>,
    pub flags: Vec<String>,
    pub is_read: bool,
    pub is_starred: bool,
    pub is_important: bool,
    pub thread_id: Option<String>,
    pub in_reply_to: Option<String>,
    pub references: Option<Vec<String>>,
    pub synced_at: i64,
}

/// One message as the fetch round handed it over: the per-folder unique
/// identifier, the raw bytes (absent when the response carried no body), and
/// the server-maintained flags.
pub struct FetchedMessage {
    pub uid: u32,
    pub raw: Option<Vec<u8>>,
    pub flags: Vec<MailFlag>,
}

/// The date header's characters, or the empty sequence when it is absent.
pub open spec fn spec_date_header(raw: Seq<u8>) -> Seq<char> {
    match mime_header_value(raw, "Date"@) {
        Some(v) => v,
        None => Seq::empty(),
    }
}

/// How a parsed canonical message relates to the fetched raw message: every
/// field is pinned, including the defined fallbacks for missing subject,
/// sender, message id and date.
pub open spec fn message_matches(
    m: MailMessage,
    account: Seq<char>,
    folder: Seq<char>,
    fm: FetchedMessage,
    now: i64,
) -> bool {
    match fm.raw {
        None => false,
        Some(raw) => {
            let rawv = raw@;
            &&& mime_parse_ok(rawv)
            &&& m.id@ == account + "-msg-"@ + spec_dec_str(fm.uid as nat)
            &&& m.account_id@ == account
            &&& m.folder_id@ == folder
            &&& m.uid == fm.uid
            &&& m.message_id@ == (match mime_header_value(rawv, "Message-ID"@) {
                Some(v) => v,
                None => "msg-"@ + spec_dec_str(fm.uid as nat),
            })
            &&& m.subject@ == (match mime_header_value(rawv, "Subject"@) {
                Some(v) => v,
                None => "No Subject"@,
            })
            &&& m.from_name is None
            &&& m.from_address@ == (match mime_header_value(rawv, "From"@) {
                Some(v) => v,
                None => "unknown@example.com"@,
            })
            &&& m.to_addresses@.len() == 0
            &&& m.cc_addresses is None
            &&& m.bcc_addresses is None
            &&& (match rfc_date_millis(spec_date_header(rawv)) {
                Some(v) => m.date == v,
                None => m.date == now,
            })
            &&& m.text.deep_view() == mime_text_body(rawv)
            &&& m.html.deep_view() == spec_html_body(rawv)
            &&& m.flags.deep_view() == fm.flags@.map_values(|f: MailFlag| spec_flag_label(f))
            &&& m.is_read == spec_has_seen(fm.flags@)
            &&& m.is_starred == spec_has_flagged(fm.flags@)
            &&& m.is_important == false
            &&& m.thread_id is None
            &&& m.in_reply_to is None
            &&& m.references is None
            &&& m.synced_at == now
        },
    }
}

/// Whether a fetched message can enter the canonical model: it has a body
/// and that body parses as MIME.
pub open spec fn parseable(fm: FetchedMessage) -> bool {
    match fm.raw {
        Some(raw) => mime_parse_ok(raw@),
        None => false,
    }
}

/// Parses one fetched message into the canonical model.
///
/// Returns a message exactly when the raw bytes are present and parse as
/// MIME. A missing or unparseable date header receives `now_ms` as the
/// fallback timestamp rather than dropping the message.
pub fn parse_message(account_id: &str, folder_id: &str, fm: &FetchedMessage, now_ms: i64) -> (r:
    Option<MailMessage>)
    ensures
        r is Some <==> parseable(*fm),
        r matches Some(m) ==> message_matches(m, account_id@, folder_id@, *fm, now_ms),
{
    let raw_vec: &Vec<u8> = match &fm.raw {
        Some(v) => v,
        None => {
            return None;
        },
    };
    let raw: &[u8] = raw_vec.as_slice();
    if !mime_parses(raw) {
        return None;
    }
    let uid = fm.uid;
    let uid_str = u32_to_string(uid);
    let subject = match mime_first_header(raw, "Subject") {
        Some(s) => s,
        None => String::from_str("No Subject"),
    };
    let from_address = match mime_first_header(raw, "From") {
        Some(s) => s,
        None => String::from_str("unknown@example.com"),
    };
    let date_header = match mime_first_header(raw, "Date") {
        Some(s) => s,
        None => String::new(),
    };
    let date = match parse_mail_date(date_header.as_str()) {
        Some(ms) => ms,
        None => now_ms,
    };
    let text = mime_plain_body(raw);
    let html = extract_html_body(raw);
    let message_id = match mime_first_header(raw, "Message-ID") {
        Some(s) => s,
        None => {
            let mut mid = String::from_str("msg-");
            mid.append(uid_str.as_str());
            mid
        },
    };
    let mut id = String::from_str(account_id);
    id.append("-msg-");
    id.append(uid_str.as_str());
    let mut labels: Vec<String> = Vec::new();
    let mut i: usize = 0;
    while i < fm.flags.len()
        invariant
            i <= fm.flags@.len(),
            labels@.len() == i as int,
            forall|j: int| 0 <= j < i as int ==> #[trigger] labels@[j]@ == spec_flag_label(
                fm.flags@[j],
            ),
        decreases fm.flags@.len() - i,
    {
        labels.push(flag_label(&fm.flags[i]));
        i = i + 1;
    }
    proof {
        assert forall|j: int| 0 <= j < labels@.len() implies labels.deep_view()[j]
            == fm.flags@.map_values(|f: MailFlag| spec_flag_label(f))[j] by {}
        assert(labels.deep_view() =~= fm.flags@.map_values(|f: MailFlag| spec_flag_label(f)));
    }
    let is_read = contains_seen(&fm.flags);
    let is_starred = contains_flagged(&fm.flags);
    Some(
        MailMessage {
            id,
            account_id: String::from_str(account_id),
            folder_id: String::from_str(folder_id),
            uid,
            message_id,
            subject,
            from_name: None,
            from_address,
            to_addresses: Vec::new(),
            cc_addresses: None,
            bcc_addresses: None,
            date,
            text,
            html,
            flags: labels,
            is_read,
            is_starred,
            is_important: false,
            thread_id: None,
            in_reply_to: None,
            references: None,
            synced_at: now_ms,
        },
    )
}

/// A message with a missing or unparseable date header receives the
/// supplied wall-clock fallback timestamp rather than being dropped.
pub proof fn lemma_date_fallback(
    m: MailMessage,
    account: Seq<char>,
    folder: Seq<char>,
    fm: FetchedMessage,
    now: i64,
)
    requires
        message_matches(m, account, folder, fm, now),
        match fm.raw {
            Some(raw) => rfc_date_millis(spec_date_header(raw@)) is None,
            None => false,
        },
    ensures
        m.date == now,
{
}

} // verus!
