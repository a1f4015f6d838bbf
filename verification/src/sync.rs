//! The message synchronizer's planning and collection logic.
//!
//! A sync selects the folder, searches for message identifiers (optionally
//! narrowed by a watermark truncated to day granularity), sorts them
//! ascending, fetches them in fixed-size rounds, and parses each fetched
//! message. A fetch or parse failure is isolated to its round or message:
//! it never aborts the remaining rounds, and partial results are returned.

use vstd::prelude::*;
use crate::error::MailError;
use crate::message::{message_matches, parseable, parse_message, FetchedMessage, MailMessage};

verus! {

use vstd::string::StringExecFns;
use vstd::multiset::Multiset;

/// How many messages one fetch round requests.
pub const FETCH_BATCH_SIZE: usize = 50;

/// The search-window day that the mailbox date of a watermark names,
/// rendered `%d-%b-%Y` as chrono formats it.
pub uninterp spec fn imap_since_date(day: int) -> Seq<char>;

/// The watermarks whose calendar date chrono can represent: the truncated
/// Unix second must fall in the day range of chrono's dates (years
/// -262143 through 262142, i.e. seconds -8334601228800 through
/// 8210266876799).
pub open spec fn spec_watermark_representable(millis: int) -> bool {
    -8334601228800999 <= millis <= 8210266876799999
}

/// The Unix second of a millisecond timestamp, rounded toward zero as the
/// machine's integer division computes it.
pub open spec fn spec_unix_secs(millis: int) -> int {
    if millis >= 0 {
        millis / 1000
    } else {
        -((-millis) / 1000)
    }
}

/// The UTC calendar day of a millisecond timestamp, as days since the
/// epoch (floor division, so days before the epoch are negative).
pub open spec fn spec_utc_day(millis: int) -> int {
    spec_unix_secs(millis) / 86400
}

/// Relies on chrono's `DateTime::<Utc>::from_timestamp` and its `%d-%b-%Y`
/// formatting. `from_timestamp` accepts exactly the seconds whose civil
/// day chrono's dates can hold, so it succeeds exactly on the watermarks
/// of [`spec_watermark_representable`]; it takes the floor of the second
/// over whole days, so the rendered date names the UTC calendar day
/// alone; and the formatter renders fixed English month names without
/// consulting the locale.
#[verifier::external_body]
fn format_since_date(millis: i64) -> (r: Option<String>)
    ensures
        r is Some <==> spec_watermark_representable(millis as int),
        r matches Some(s) ==> s@ == imap_since_date(spec_utc_day(millis as int)),
{
    chrono::DateTime::<chrono::Utc>::from_timestamp(millis / 1000, 0).map(
        |dt| dt.format("%d-%b-%Y").to_string(),
    )
}

/// Builds the search predicate description: all messages, or the messages
/// received since the watermark's calendar day.
///
/// The truncation to whole days is intentional: messages from earlier in the
/// watermark's own day may be fetched again, which downstream de-duplication
/// by id absorbs. A watermark that chrono cannot represent as a date is a
/// search failure.
pub fn build_search_query(since: Option<i64>) -> (r: Result<String, MailError>)
    ensures
        since is None ==> (r matches Ok(q) && q@ == "ALL"@),
        since matches Some(ms) ==> (spec_watermark_representable(ms as int) ==> (r matches Ok(q)
            && q@ == "SINCE "@ + imap_since_date(spec_utc_day(ms as int)))),
        since matches Some(ms) ==> (!spec_watermark_representable(ms as int) ==> (r matches Err(e)
            && e is SearchError)),
{
    match since {
        None => Ok(String::from_str("ALL")),
        Some(ms) => match format_since_date(ms) {
            Some(d) => {
                let mut q = String::from_str("SINCE ");
                q.append(d.as_str());
                Ok(q)
            },
            None => Err(
                MailError::SearchError(String::from_str("watermark is out of range for a date")),
            ),
        },
    }
}

/// The search window is truncated to day granularity: two watermarks with
/// the same UTC calendar day describe the same search window, so messages
/// timestamped earlier on the watermark's own day stay inside it (the
/// lower bound is deliberately non-strict).
pub proof fn lemma_search_window_day_granularity(ms1: int, ms2: int)
    requires
        spec_utc_day(ms1) == spec_utc_day(ms2),
    ensures
        imap_since_date(spec_utc_day(ms1)) == imap_since_date(spec_utc_day(ms2)),
{
}

/// For a watermark on or after the epoch, the UTC calendar day is the
/// whole number of days of its milliseconds.
pub proof fn lemma_utc_day_of_nonneg(ms: int)
    requires
        ms >= 0,
    ensures
        spec_utc_day(ms) == ms / 86400000,
{
    vstd::arithmetic::div_mod::lemma_div_denominator(ms, 1000, 86400);
}

/// A sequence of identifiers in ascending order.
pub open spec fn sorted_ascending(s: Seq<u32>) -> bool {
    forall|i: int, j: int| 0 <= i < j < s.len() ==> s[i] <= s[j]
}

/// Sorts message identifiers ascending.
pub fn sort_uids(uids: Vec<u32>) -> (r: Vec<u32>)
    ensures
        sorted_ascending(r@),
        r@.to_multiset() == uids@.to_multiset(),
        r@.len() == uids@.len(),
{
    let mut work = uids;
    let mut out: Vec<u32> = Vec::new();
    proof {
        broadcast use vstd::seq_lib::group_to_multiset_ensures;

        assert(out@.to_multiset().add(work@.to_multiset()) =~= work@.to_multiset());
    }
    while work.len() > 0
        invariant
            out@.to_multiset().add(work@.to_multiset()) == uids@.to_multiset(),
            sorted_ascending(out@),
            forall|i: int, j: int|
                0 <= i < out@.len() && 0 <= j < work@.len() ==> out@[i] <= work@[j],
            out@.len() + work@.len() == uids@.len(),
        decreases work@.len(),
    {
        let mut m: usize = 0;
        let mut k: usize = 1;
        while k < work.len()
            invariant
                work@.len() > 0,
                m < work@.len(),
                k <= work@.len(),
                forall|t: int| 0 <= t < k ==> work@[m as int] <= work@[t],
            decreases work@.len() - k,
        {
            if work[k] < work[m] {
                m = k;
            }
            k = k + 1;
        }
        let ghost old_out = out@;
        let ghost old_work = work@;
        let x = work.remove(m);
        out.push(x);
        proof {
            broadcast use vstd::seq_lib::group_to_multiset_ensures;

            assert(work@ =~= old_work.remove(m as int));
            assert(out@.to_multiset() =~= old_out.to_multiset().insert(x));
            assert(work@.to_multiset() =~= old_work.to_multiset().remove(x));
            assert(old_work.to_multiset().count(x) > 0);
            assert(out@.to_multiset().add(work@.to_multiset()) =~= old_out.to_multiset().add(
                old_work.to_multiset(),
            ));
            assert forall|j: int| 0 <= j < work@.len() implies x <= work@[j] by {
                if j < m as int {
                    assert(work@[j] == old_work[j]);
                } else {
                    assert(work@[j] == old_work[j + 1]);
                }
            }
        }
    }
    proof {
        broadcast use vstd::seq_lib::group_to_multiset_ensures;

        assert(work@.to_multiset() =~= Multiset::<u32>::empty());
        assert(out@.to_multiset().add(work@.to_multiset()) =~= out@.to_multiset());
        assert(uids@.to_multiset().len() == uids@.len());
        assert(out@.to_multiset().len() == out@.len());
    }
    out
}

/// The identifiers split into fetch rounds of `k`, in order: every round
/// holds `k` identifiers except a shorter final round.
pub open spec fn chunks_of(s: Seq<u32>, k: nat) -> Seq<Seq<u32>>
    decreases s.len(),
    when k > 0
{
    if s.len() == 0 {
        Seq::empty()
    } else if s.len() <= k {
        seq![s]
    } else {
        seq![s.take(k as int)] + chunks_of(s.skip(k as int), k)
    }
}

/// Splitting into rounds loses and reorders nothing: the rounds concatenate
/// back to the original identifier sequence.
pub proof fn lemma_chunks_flatten(s: Seq<u32>, k: nat)
    requires
        k > 0,
    ensures
        chunks_of(s, k).flatten() == s,
    decreases s.len(),
{
    broadcast use Seq::lemma_flatten_push;

    if s.len() == 0 {
        assert(chunks_of(s, k).flatten() =~= s);
    } else if s.len() <= k {
        assert(chunks_of(s, k) =~= Seq::empty().push(s));
        assert(Seq::<Seq<u32>>::empty().push(s).flatten() =~= Seq::<Seq<u32>>::empty().flatten()
            + s);
        assert(chunks_of(s, k).flatten() =~= s);
    } else {
        lemma_chunks_flatten(s.skip(k as int), k);
        assert(chunks_of(s, k) =~= Seq::empty().push(s.take(k as int)) + chunks_of(
            s.skip(k as int),
            k,
        ));
        lemma_flatten_concat(Seq::empty().push(s.take(k as int)), chunks_of(s.skip(k as int), k));
        assert(Seq::<Seq<u32>>::empty().push(s.take(k as int)).flatten() =~= s.take(k as int));
        assert(s.take(k as int) + s.skip(k as int) =~= s);
    }
}

/// Concatenating two round lists concatenates what they flatten to.
proof fn lemma_flatten_concat(a: Seq<Seq<u32>>, b: Seq<Seq<u32>>)
    ensures
        (a + b).flatten() == a.flatten() + b.flatten(),
    decreases a.len(),
{
    if a.len() == 0 {
        assert(a + b =~= b);
        assert(a.flatten() + b.flatten() =~= b.flatten());
    } else {
        lemma_flatten_concat(a.drop_first(), b);
        assert((a + b).drop_first() =~= a.drop_first() + b);
        assert((a + b).first() == a.first());
        assert((a + b).flatten() == (a + b).first() + (a + b).drop_first().flatten());
        assert(a.first() + (a.drop_first().flatten() + b.flatten()) =~= (a.first()
            + a.drop_first().flatten()) + b.flatten());
    }
}

/// Splits sorted identifiers into fetch rounds of [`FETCH_BATCH_SIZE`].
fn chunk_uids(sorted: Vec<u32>) -> (r: Vec<Vec<u32>>)
    ensures
        r.deep_view() == chunks_of(sorted@, FETCH_BATCH_SIZE as nat),
{
    let n = sorted.len();
    let mut r: Vec<Vec<u32>> = Vec::new();
    let mut i: usize = 0;
    proof {
        assert(r.deep_view() =~= Seq::<Seq<u32>>::empty());
        assert(sorted@.skip(0) =~= sorted@);
        assert(Seq::<Seq<u32>>::empty() + chunks_of(sorted@, FETCH_BATCH_SIZE as nat)
            =~= chunks_of(sorted@, FETCH_BATCH_SIZE as nat));
    }
    while i < n
        invariant
            n == sorted@.len(),
            i <= n,
            chunks_of(sorted@, FETCH_BATCH_SIZE as nat) =~= r.deep_view() + chunks_of(
                sorted@.skip(i as int),
                FETCH_BATCH_SIZE as nat,
            ),
        decreases n - i,
    {
        let j = if n - i > FETCH_BATCH_SIZE {
            i + FETCH_BATCH_SIZE
        } else {
            n
        };
        let mut batch: Vec<u32> = Vec::new();
        let mut t: usize = i;
        while t < j
            invariant
                i <= t <= j <= n,
                n == sorted@.len(),
                batch@ == sorted@.subrange(i as int, t as int),
            decreases j - t,
        {
            batch.push(sorted[t]);
            t = t + 1;
            proof {
                assert(batch@ =~= sorted@.subrange(i as int, t as int));
            }
        }
        let ghost pre = r.deep_view();
        let ghost rest = sorted@.skip(i as int);
        r.push(batch);
        proof {
            assert forall|q: int| 0 <= q < r.deep_view().len() implies r.deep_view()[q] == (
            if q < pre.len() {
                pre[q]
            } else {
                batch@
            }) by {}
            assert(r.deep_view() =~= pre.push(batch@));
            if n - i <= FETCH_BATCH_SIZE {
                assert(rest.len() <= FETCH_BATCH_SIZE as nat);
                assert(rest =~= sorted@.subrange(i as int, j as int));
                assert(chunks_of(rest, FETCH_BATCH_SIZE as nat) =~= Seq::empty().push(batch@));
                assert(sorted@.skip(j as int).len() == 0);
                assert(chunks_of(sorted@.skip(j as int), FETCH_BATCH_SIZE as nat)
                    =~= Seq::<Seq<u32>>::empty());
                assert(pre.push(batch@) + Seq::empty() =~= pre + Seq::empty().push(batch@));
            } else {
                assert(rest.take(FETCH_BATCH_SIZE as int) =~= sorted@.subrange(i as int, j as int));
                assert(rest.skip(FETCH_BATCH_SIZE as int) =~= sorted@.skip(j as int));
                assert(chunks_of(rest, FETCH_BATCH_SIZE as nat) =~= Seq::empty().push(batch@)
                    + chunks_of(sorted@.skip(j as int), FETCH_BATCH_SIZE as nat));
                assert(pre + (Seq::empty().push(batch@) + chunks_of(
                    sorted@.skip(j as int),
                    FETCH_BATCH_SIZE as nat,
                )) =~= pre.push(batch@) + chunks_of(
                    sorted@.skip(j as int),
                    FETCH_BATCH_SIZE as nat,
                ));
            }
        }
        i = j;
    }
    proof {
        assert(sorted@.skip(n as int).len() == 0);
        assert(chunks_of(sorted@.skip(n as int), FETCH_BATCH_SIZE as nat) =~= Seq::<
            Seq<u32>,
        >::empty());
        assert(r.deep_view() + Seq::empty() =~= r.deep_view());
    }
    r
}

/// Sorts the searched identifiers ascending and splits them into fetch
/// rounds of [`FETCH_BATCH_SIZE`]. Zero identifiers plan zero rounds: an
/// empty search result is not an error.
pub fn plan_batches(uids: Vec<u32>) -> (r: Vec<Vec<u32>>)
    ensures
        sorted_ascending(r.deep_view().flatten()),
        r.deep_view().flatten().to_multiset() == uids@.to_multiset(),
        r.deep_view() == chunks_of(r.deep_view().flatten(), FETCH_BATCH_SIZE as nat),
        r@.len() == 0 <==> uids@.len() == 0,
{
    let ghost input = uids@;
    let sorted = sort_uids(uids);
    let ghost sorted_view = sorted@;
    let r = chunk_uids(sorted);
    proof {
        lemma_chunks_flatten(sorted_view, FETCH_BATCH_SIZE as nat);
        broadcast use vstd::seq_lib::group_to_multiset_ensures;

        assert(input.to_multiset().len() == input.len());
    }
    r
}

/// The outcome of one fetch round, as the transport layer saw it.
pub enum BatchOutcome {
    /// The round returned these messages.
    Fetched(Vec<FetchedMessage>),
    /// The whole round failed; non-fatal, its messages are skipped.
    FetchFailed(String),
}

/// The fetched messages of one round that can enter the canonical model: a
/// failed round keeps nothing, a fetched round keeps its parseable messages
/// in order.
pub open spec fn batch_kept(o: BatchOutcome) -> Seq<FetchedMessage> {
    match o {
        BatchOutcome::Fetched(v) => v@.filter(|fm: FetchedMessage| parseable(fm)),
        BatchOutcome::FetchFailed(_) => Seq::empty(),
    }
}

/// The fetched messages of a whole sync that enter the canonical model, in
/// round order.
pub open spec fn kept_all(outs: Seq<BatchOutcome>) -> Seq<FetchedMessage>
    decreases outs.len(),
{
    if outs.len() == 0 {
        Seq::empty()
    } else {
        batch_kept(outs[0]) + kept_all(outs.drop_first())
    }
}

/// Whether `r` is exactly the canonical parse of the kept fetched messages.
pub open spec fn messages_match(
    r: Seq<MailMessage>,
    account: Seq<char>,
    folder: Seq<char>,
    kept: Seq<FetchedMessage>,
    now: i64,
) -> bool {
    &&& r.len() == kept.len()
    &&& forall|i: int|
        0 <= i < r.len() ==> message_matches(#[trigger] r[i], account, folder, kept[i], now)
}

/// Parses the messages of one fetch round, skipping a failed round and every
/// message whose MIME body fails to parse.
pub fn process_batch(account_id: &str, folder_id: &str, outcome: &BatchOutcome, now_ms: i64) -> (r:
    Vec<MailMessage>)
    ensures
        messages_match(r@, account_id@, folder_id@, batch_kept(*outcome), now_ms),
{
    match outcome {
        BatchOutcome::FetchFailed(_) => {
            let r: Vec<MailMessage> = Vec::new();
            r
        },
        BatchOutcome::Fetched(items) => {
            let ghost pred = |fm: FetchedMessage| parseable(fm);
            let mut out: Vec<MailMessage> = Vec::new();
            let mut i: usize = 0;
            proof {
                reveal(Seq::filter);
                assert(items@.subrange(0, 0).filter(pred) =~= Seq::empty());
            }
            while i < items.len()
                invariant
                    i <= items@.len(),
                    messages_match(
                        out@,
                        account_id@,
                        folder_id@,
                        items@.subrange(0, i as int).filter(pred),
                        now_ms,
                    ),
                    pred == (|fm: FetchedMessage| parseable(fm)),
                decreases items@.len() - i,
            {
                let ghost prefix = items@.subrange(0, i as int);
                match parse_message(account_id, folder_id, &items[i], now_ms) {
                    Some(m) => {
                        out.push(m);
                    },
                    None => {},
                }
                i = i + 1;
                proof {
                    reveal(Seq::filter);
                    let ext = items@.subrange(0, i as int);
                    assert(ext.drop_last() =~= prefix);
                    assert(ext.last() == items@[i - 1]);
                }
            }
            proof {
                assert(items@.subrange(0, items@.len() as int) =~= items@);
            }
            out
        },
    }
}

/// Appending rounds appends what they keep.
pub proof fn lemma_kept_all_push(outs: Seq<BatchOutcome>, o: BatchOutcome)
    ensures
        kept_all(outs.push(o)) == kept_all(outs) + batch_kept(o),
    decreases outs.len(),
{
    if outs.len() == 0 {
        assert(outs.push(o).drop_first() =~= Seq::empty());
        assert(outs.push(o)[0] == o);
        assert(outs.push(o).len() == 1);
        assert(kept_all(Seq::<BatchOutcome>::empty()) =~= Seq::<FetchedMessage>::empty());
        assert(kept_all(outs.push(o)) == batch_kept(outs.push(o)[0]) + kept_all(
            outs.push(o).drop_first(),
        ));
        assert(batch_kept(o) + Seq::<FetchedMessage>::empty() =~= batch_kept(o));
        assert(kept_all(outs.push(o)) =~= batch_kept(o));
        assert(kept_all(outs) + batch_kept(o) =~= batch_kept(o));
    } else {
        lemma_kept_all_push(outs.drop_first(), o);
        assert(outs.push(o).drop_first() =~= outs.drop_first().push(o));
        assert(outs.push(o)[0] == outs[0]);
        assert(batch_kept(outs[0]) + (kept_all(outs.drop_first()) + batch_kept(o)) =~= (batch_kept(
            outs[0],
        ) + kept_all(outs.drop_first())) + batch_kept(o));
    }
}

/// Parses the messages of all fetch rounds in order. One round's failure, or
/// one message's parse failure, never prevents later rounds' messages from
/// appearing: total sync success is best-effort coverage, not all-or-nothing.
pub fn process_batches(
    account_id: &str,
    folder_id: &str,
    outcomes: Vec<BatchOutcome>,
    now_ms: i64,
) -> (r: Vec<MailMessage>)
    ensures
        messages_match(r@, account_id@, folder_id@, kept_all(outcomes@), now_ms),
{
    let ghost all = outcomes@;
    let mut out: Vec<MailMessage> = Vec::new();
    let n = outcomes.len();
    let mut i: usize = 0;
    proof {
        assert(kept_all(all.subrange(0, 0)) =~= Seq::empty());
    }
    while i < n
        invariant
            n == outcomes@.len(),
            outcomes@ == all,
            i <= n,
            messages_match(
                out@,
                account_id@,
                folder_id@,
                kept_all(all.subrange(0, i as int)),
                now_ms,
            ),
        decreases n - i,
    {
        let ghost prefix = all.subrange(0, i as int);
        let mut parsed = process_batch(account_id, folder_id, &outcomes[i], now_ms);
        let ghost parsed_view = parsed@;
        out.append(&mut parsed);
        i = i + 1;
        proof {
            lemma_kept_all_push(prefix, all[i - 1]);
            assert(all.subrange(0, i as int) =~= prefix.push(all[i - 1]));
        }
    }
    proof {
        assert(all.subrange(0, all.len() as int) =~= all);
    }
    out
}

/// Only parseable fetched messages are kept: a message whose MIME body
/// fails to parse is excluded from the result.
pub proof fn lemma_unparseable_excluded(outs: Seq<BatchOutcome>, i: int)
    requires
        0 <= i < kept_all(outs).len(),
    ensures
        parseable(kept_all(outs)[i]),
    decreases outs.len(),
{
    broadcast use Seq::lemma_filter_pred;

    if outs.len() > 0 {
        let head = batch_kept(outs[0]);
        if i >= head.len() {
            lemma_unparseable_excluded(outs.drop_first(), i - head.len());
        }
    }
}

/// A parseable fetched message is never lost: whatever became of the other
/// messages in its round or of any other round, it is kept.
pub proof fn lemma_parse_failure_isolated(outs: Seq<BatchOutcome>, b: int, j: int)
    requires
        0 <= b < outs.len(),
        match outs[b] {
            BatchOutcome::Fetched(v) => 0 <= j < v@.len() && parseable(v@[j]),
            BatchOutcome::FetchFailed(_) => false,
        },
    ensures
        match outs[b] {
            BatchOutcome::Fetched(v) => kept_all(outs).contains(v@[j]),
            BatchOutcome::FetchFailed(_) => true,
        },
    decreases outs.len(),
{
    broadcast use Seq::lemma_filter_contains;

    if b == 0 {
        match outs[0] {
            BatchOutcome::Fetched(v) => {
                let pred = |fm: FetchedMessage| parseable(fm);
                assert(v@.filter(pred).contains(v@[j]));
                let w = choose|w: int|
                    0 <= w < batch_kept(outs[0]).len() && batch_kept(outs[0])[w] == v@[j];
                assert(kept_all(outs)[w] == v@[j]);
            },
            BatchOutcome::FetchFailed(_) => {},
        }
    } else {
        lemma_parse_failure_isolated(outs.drop_first(), b - 1, j);
        match outs[b] {
            BatchOutcome::Fetched(v) => {
                assert(outs.drop_first()[b - 1] == outs[b]);
                let w = choose|w: int|
                    0 <= w < kept_all(outs.drop_first()).len() && kept_all(outs.drop_first())[w]
                        == v@[j];
                assert(kept_all(outs)[batch_kept(outs[0]).len() + w] == v@[j]);
            },
            BatchOutcome::FetchFailed(_) => {},
        }
    }
}

/// Rounds are independent: what a run of rounds keeps is what its parts
/// keep, concatenated. In particular a failing round contributes nothing
/// while every later round's contribution is unchanged.
pub proof fn lemma_kept_all_concat(a: Seq<BatchOutcome>, b: Seq<BatchOutcome>)
    ensures
        kept_all(a + b) == kept_all(a) + kept_all(b),
    decreases a.len(),
{
    if a.len() == 0 {
        assert(a + b =~= b);
        assert(kept_all(a) + kept_all(b) =~= kept_all(b));
    } else {
        lemma_kept_all_concat(a.drop_first(), b);
        assert((a + b).drop_first() =~= a.drop_first() + b);
        assert((a + b)[0] == a[0]);
        assert((a + b).len() > 0);
        assert(kept_all(a + b) == batch_kept((a + b)[0]) + kept_all((a + b).drop_first()));
        assert(kept_all(a) == batch_kept(a[0]) + kept_all(a.drop_first()));
        assert(batch_kept(a[0]) + (kept_all(a.drop_first()) + kept_all(b)) =~= (batch_kept(a[0])
            + kept_all(a.drop_first())) + kept_all(b));
    }
}

/// A search that matched nothing plans no fetch rounds and yields the empty
/// message list — not an error.
pub proof fn lemma_empty_search_yields_empty(
    r: Seq<MailMessage>,
    account: Seq<char>,
    folder: Seq<char>,
    now: i64,
)
    requires
        messages_match(r, account, folder, kept_all(Seq::empty()), now),
    ensures
        r.len() == 0,
{
}

} // verus!
