//! The account fetcher's cursor logic and request budget.
//!
//! The host program pages through the forge's account listing; this
//! module decides which accounts of a page are new, when paging must
//! stop, how the cursors advance, and when the rate-limit window forces
//! a pause.  Two cursor strategies exist: a monotonic id watermark for
//! the `newest` sort, and a sliding window of recently seen ids for the
//! `recentupdate` sort, whose order is not monotonic.

use vstd::prelude::*;

use crate::account::Account;
use crate::sort::Sort;

verus! {

/// Maximum retries for fetching a page.
pub const MAX_RETRIES: u64 = 10;

/// Base seconds of the linear retry backoff.
pub const RETRY_INTERVAL: u64 = 30;

/// Sliding-window size for the `recentupdate` sort.
pub const UPDATED_USERS_COUNT: usize = 7;

/// The accounts of `page`, in order, whose id lies beyond the watermark.
pub open spec fn newer_than(page: Seq<Account>, watermark: u64) -> Seq<Account>
    decreases page.len(),
{
    if page.len() == 0 {
        Seq::empty()
    } else if page.last().id > watermark {
        newer_than(page.drop_last(), watermark).push(page.last())
    } else {
        newer_than(page.drop_last(), watermark)
    }
}

/// The prefix of `page` before the first account whose id the window
/// already holds.
pub open spec fn prefix_unseen(page: Seq<Account>, window: Seq<u64>) -> Seq<Account>
    decreases page.len(),
{
    if page.len() == 0 {
        Seq::empty()
    } else if window.contains(page[0].id) {
        Seq::empty()
    } else {
        seq![page[0]] + prefix_unseen(page.drop_first(), window)
    }
}

/// Whether some account of `page` has an id the window already holds.
pub open spec fn any_seen(page: Seq<Account>, window: Seq<u64>) -> bool {
    exists|i: int| 0 <= i < page.len() && window.contains(#[trigger] page[i].id)
}

/// Whether `items` holds `needle`.
pub fn contains_u64(items: &Vec<u64>, needle: u64) -> (r: bool)
    ensures
        r == items@.contains(needle),
{
    let n = items.len();
    for i in 0..n
        invariant
            n == items@.len(),
            forall|j: int| 0 <= j < i ==> items@[j] != needle,
    {
        if items[i] == needle {
            proof {
                assert(items@[i as int] == needle);
            }
            return true;
        }
    }
    false
}

/// Keep the accounts of a fetched page that lie beyond the newest-strategy
/// watermark.
pub fn filter_newer(page: Vec<Account>, watermark: u64) -> (kept: Vec<Account>)
    ensures
        kept@ == newer_than(page@, watermark),
{
    let n = page.len();
    let mut out: Vec<Account> = Vec::new();
    for i in 0..n
        invariant
            n == page@.len(),
            out@ == newer_than(page@.take(i as int), watermark),
    {
        proof {
            assert(page@.take(i as int + 1).drop_last() =~= page@.take(i as int));
            assert(page@.take(i as int + 1).last() == page@[i as int]);
        }
        if page[i].id > watermark {
            out.push(page[i].clone());
        }
    }
    proof {
        assert(page@.take(n as int) =~= page@);
    }
    out
}

proof fn lemma_prefix_unseen_stop(page: Seq<Account>, window: Seq<u64>, i: int)
    requires
        0 <= i < page.len(),
        forall|j: int| 0 <= j < i ==> !window.contains(#[trigger] page[j].id),
        window.contains(page[i].id),
    ensures
        prefix_unseen(page, window) == page.take(i),
    decreases i,
{
    if i == 0 {
        assert(prefix_unseen(page, window) =~= page.take(0));
    } else {
        lemma_prefix_unseen_stop(page.drop_first(), window, i - 1);
        assert(page.drop_first().take(i - 1) =~= page.take(i).drop_first());
        assert(prefix_unseen(page, window) =~= seq![page[0]] + page.take(i).drop_first());
        assert(seq![page[0]] + page.take(i).drop_first() =~= page.take(i));
    }
}

proof fn lemma_prefix_unseen_all(page: Seq<Account>, window: Seq<u64>)
    requires
        forall|j: int| 0 <= j < page.len() ==> !window.contains(#[trigger] page[j].id),
    ensures
        prefix_unseen(page, window) == page,
    decreases page.len(),
{
    if page.len() > 0 {
        lemma_prefix_unseen_all(page.drop_first(), window);
        assert(prefix_unseen(page, window) =~= seq![page[0]] + page.drop_first());
        assert(seq![page[0]] + page.drop_first() =~= page);
    }
}

/// Keep the prefix of a fetched page that the sliding window has not seen
/// yet, and report whether the window was hit — which means the fetcher
/// has caught up and must stop paging.
pub fn take_until_seen(page: Vec<Account>, window: &Vec<u64>) -> (r: (Vec<Account>, bool))
    ensures
        r.0@ == prefix_unseen(page@, window@),
        r.1 == any_seen(page@, window@),
{
    let n = page.len();
    let mut out: Vec<Account> = Vec::new();
    for i in 0..n
        invariant
            n == page@.len(),
            out@ == page@.take(i as int),
            forall|j: int| 0 <= j < i ==> !window@.contains(#[trigger] page@[j].id),
    {
        if contains_u64(window, page[i].id) {
            proof {
                lemma_prefix_unseen_stop(page@, window@, i as int);
                assert(any_seen(page@, window@));
            }
            return (out, true);
        }
        out.push(page[i].clone());
        proof {
            assert(out@ =~= page@.take(i as int + 1));
        }
    }
    proof {
        lemma_prefix_unseen_all(page@, window@);
        assert(page@.take(n as int) =~= page@);
    }
    (out, false)
}

/// The largest account id of a non-empty fetch: the new watermark.
pub fn max_id(users: &Vec<Account>) -> (r: u64)
    requires
        users@.len() > 0,
    ensures
        forall|i: int| 0 <= i < users@.len() ==> #[trigger] users@[i].id <= r,
        exists|i: int| 0 <= i < users@.len() && #[trigger] users@[i].id == r,
{
    let mut best: u64 = users[0].id;
    let n = users.len();
    for i in 1..n
        invariant
            n == users@.len(),
            forall|j: int| 0 <= j < i ==> #[trigger] users@[j].id <= best,
            exists|j: int| 0 <= j < i && #[trigger] users@[j].id == best,
    {
        if users[i].id > best {
            best = users[i].id;
            proof {
                assert(users@[i as int].id == best);
            }
        }
    }
    best
}

/// The ids of the first accounts of a fetch, up to the window size: the
/// new sliding window.
pub fn window_ids(users: &Vec<Account>, count: usize) -> (r: Vec<u64>)
    ensures
        r@.len() == if count <= users@.len() {
            count as int
        } else {
            users@.len() as int
        },
        forall|i: int| 0 <= i < r@.len() ==> r@[i] == #[trigger] users@[i].id,
{
    let n = if count <= users.len() {
        count
    } else {
        users.len()
    };
    let mut out: Vec<u64> = Vec::new();
    for i in 0..n
        invariant
            n <= users@.len(),
            n == if count <= users@.len() {
                count as int
            } else {
                users@.len() as int
            },
            out@.len() == i,
            forall|j: int| 0 <= j < i ==> out@[j] == #[trigger] users@[j].id,
    {
        out.push(users[i].id);
    }
    out
}

/// The initial cursor ids: what the first probe fetched, or id 1 when the
/// instance returned no account at all.
pub fn initial_ids(ids: Vec<u64>) -> (r: Vec<u64>)
    ensures
        ids@.len() == 0 ==> r@ =~= seq![1u64],
        ids@.len() > 0 ==> r@ == ids@,
{
    if ids.is_empty() {
        let mut one: Vec<u64> = Vec::new();
        one.push(1);
        one
    } else {
        ids
    }
}

/// Whether the fetch loop passes over `user` without consulting the
/// rules: administrators always, and — under the recently-updated sort —
/// accounts so new that the newest-strategy fetcher will pick them up.
pub fn skip_before_check(sort: &Sort, user: &Account, interval: u32, now: u64) -> (r: bool)
    ensures
        r == (user.is_admin || (*sort is RecentUpdate && user.created + interval >= now)),
{
    user.is_admin || (sort.is_recent_update() && user.is_new(interval, now))
}

/// Whether the loop must pause for the budget window before the next
/// request.
pub fn budget_exhausted(reqs: u32, limit: u32) -> (r: bool)
    ensures
        r == (reqs >= limit),
{
    reqs >= limit
}

/// Whether the loop must pause before spending up to four more requests
/// on one account (the per-account lookahead reserve).
pub fn budget_needs_reserve(reqs: u32, limit: u32) -> (r: bool)
    ensures
        r == (reqs + 4 > limit),
{
    reqs as u64 + 4 > limit as u64
}

/// Seconds to wait before retry number `attempt`: a linear backoff.
pub fn retry_backoff(attempt: u64) -> (r: u64)
    requires
        attempt <= MAX_RETRIES,
    ensures
        r == RETRY_INTERVAL * attempt,
{
    RETRY_INTERVAL * attempt
}

/// Cursor monotonicity for the newest strategy: everything the filter
/// keeps lies beyond the watermark, and every page account beyond the
/// watermark is kept, in page order.
pub proof fn lemma_newer_than(page: Seq<Account>, watermark: u64)
    ensures
        forall|i: int|
            0 <= i < newer_than(page, watermark).len() ==> #[trigger] newer_than(
                page,
                watermark,
            )[i].id > watermark,
        forall|i: int|
            0 <= i < page.len() && page[i].id > watermark ==> newer_than(page, watermark).contains(
                #[trigger] page[i],
            ),
    decreases page.len(),
{
    if page.len() > 0 {
        lemma_newer_than(page.drop_last(), watermark);
        assert forall|i: int|
            0 <= i < page.len() && page[i].id > watermark implies newer_than(
            page,
            watermark,
        ).contains(#[trigger] page[i]) by {
            if i < page.len() - 1 {
                assert(page.drop_last()[i] == page[i]);
                let m = choose|m: int|
                    0 <= m < newer_than(page.drop_last(), watermark).len() && newer_than(
                        page.drop_last(),
                        watermark,
                    )[m] == page[i];
                assert(newer_than(page, watermark)[m] == page[i]);
            } else {
                assert(page.last() == page[i]);
                assert(newer_than(page, watermark).last() == page[i]);
            }
        }
    }
}

/// Sliding-window termination for the recently-updated strategy: as soon
/// as a page holds an id the window has seen, the kept prefix ends before
/// it — whatever data the rest of the page or later pages would hold —
/// and the fetcher reports that it has caught up.
pub proof fn lemma_window_stops(page: Seq<Account>, window: Seq<u64>, i: int)
    requires
        0 <= i < page.len(),
        window.contains(page[i].id),
    ensures
        prefix_unseen(page, window).len() <= i,
        any_seen(page, window),
    decreases i,
{
    if prefix_unseen(page, window).len() > 0 {
        if i > 0 && !window.contains(page[0].id) {
            assert(page.drop_first()[i - 1] == page[i]);
            lemma_window_stops(page.drop_first(), window, i - 1);
        }
    }
}

} // verus!
