//! The deferred ("lazy") purge scheduler's verified core.
//!
//! A queued purge waits a grace period so that moderators can see and veto
//! it.  Each scheduler pass selects the queue entries whose grace period
//! has passed; the host program bans each selected account and then clears
//! its moderation state.

use vstd::prelude::*;

use crate::moderation::user_event_keys;
use crate::store::{Store, StoreError};

verus! {

/// Whether an entry enqueued at `enqueued_at` is due at `now`, with grace
/// period `purge_after` (all unix seconds).
pub open spec fn purge_due_spec(enqueued_at: u64, now: u64, purge_after: u64) -> bool {
    now >= enqueued_at + purge_after
}

/// The usernames of `queue` whose grace period has passed at `now`.
pub open spec fn due_users(queue: Map<Seq<char>, u64>, now: u64, purge_after: u64) -> Set<
    Seq<char>,
> {
    Set::new(
        |k: Seq<char>| queue.dom().contains(k) && purge_due_spec(queue[k], now, purge_after),
    )
}

/// Whether the username list `v` covers every entry of `queue` that is
/// due at `now`: no due entry is missing from `v`.
pub open spec fn covers_due(
    v: Seq<String>,
    queue: Map<Seq<char>, u64>,
    now: u64,
    purge_after: u64,
) -> bool {
    forall|k: Seq<char>|
        due_users(queue, now, purge_after).contains(k) ==> exists|i: int|
            0 <= i < v.len() && #[trigger] v[i]@ == k
}

/// Whether an entry enqueued at `enqueued_at` is due at `now`.
pub fn is_purge_due(enqueued_at: u64, now: u64, purge_after: u64) -> (r: bool)
    ensures
        r == purge_due_spec(enqueued_at, now, purge_after),
{
    if now < enqueued_at {
        false
    } else {
        now - enqueued_at >= purge_after
    }
}

impl Store {
    /// The usernames whose queued purge is due at `now`: each returned
    /// name is queued and due, and every queued and due name is returned.
    #[verifier::rlimit(100)]
    #[verifier::spinoff_prover]
    pub fn purge_due(&self, now: u64, purge_after: u64) -> (r: Result<Vec<String>, StoreError>)
        ensures
            r matches Ok(v) ==> (forall|i: int|
                0 <= i < v@.len() ==> due_users(self.purge_queue(), now, purge_after).contains(
                    #[trigger] v@[i]@,
                )),
            r matches Ok(v) ==> covers_due(v@, self.purge_queue(), now, purge_after),
    {
        let ghost queue = self.purge_queue();
        let ghost due = due_users(queue, now, purge_after);
        let entries = match self.purge_entries() {
            Ok(e) => e,
            Err(e) => {
                return Err(e);
            },
        };
        let n = entries.len();
        let mut out: Vec<String> = Vec::new();
        for i in 0..n
            invariant
                n == entries@.len(),
                queue == self.purge_queue(),
                due == due_users(queue, now, purge_after),
                forall|l: int|
                    0 <= l < entries@.len() ==> queue.dom().contains(#[trigger] entries@[l].0@)
                        && queue[entries@[l].0@] == entries@[l].1,
                forall|m: int| 0 <= m < out@.len() ==> due.contains(#[trigger] out@[m]@),
                forall|l: int|
                    0 <= l < i && purge_due_spec(#[trigger] entries@[l].1, now, purge_after)
                        ==> exists|m: int| 0 <= m < out@.len() && out@[m]@ == entries@[l].0@,
        {
            let ghost out_pre = out@;
            if is_purge_due(entries[i].1, now, purge_after) {
                proof {
                    assert(due.contains(entries@[i as int].0@));
                }
                out.push(entries[i].0.clone());
                proof {
                    assert(out@ == out_pre.push(out@[out@.len() - 1]));
                    assert(out@[out@.len() - 1]@ == entries@[i as int].0@);
                    assert forall|l: int|
                        0 <= l < i + 1 && purge_due_spec(
                            #[trigger] entries@[l].1,
                            now,
                            purge_after,
                        ) implies exists|m: int|
                        0 <= m < out@.len() && out@[m]@ == entries@[l].0@ by {
                        if l < i {
                            let m0 = choose|m: int|
                                0 <= m < out_pre.len() && out_pre[m]@ == entries@[l].0@;
                            assert(out@[m0]@ == entries@[l].0@);
                        } else {
                            assert(out@[out@.len() - 1]@ == entries@[l].0@);
                        }
                    }
                }
            }
        }
        proof {
            assert forall|k: Seq<char>| due.contains(k) implies exists|i: int|
                0 <= i < out@.len() && #[trigger] out@[i]@ == k by {
                assert(queue.dom().contains(k));
                let l = choose|l: int| 0 <= l < entries@.len() && #[trigger] entries@[l].0@ == k;
                assert(purge_due_spec(entries@[l].1, now, purge_after));
            }
            assert(covers_due(out@, self.purge_queue(), now, purge_after));
        }
        Ok(out)
    }

    /// Clear the moderation state of a purged username: drop it from the
    /// purge queue, drop its pending alert, and delete its chat events —
    /// three independent transactions, in that order.
    pub fn complete_purge(&mut self, username: &str) -> (r: Result<(), StoreError>)
        ensures
            final(self).ignored() == old(self).ignored(),
            r is Ok ==> final(self).purge_queue() == old(self).purge_queue().remove(username@),
            r is Ok ==> final(self).alerted() == old(self).alerted().remove(username@),
            r is Ok ==> final(self).events() == old(self).events().remove_keys(
                user_event_keys(old(self).events(), username@),
            ),
            final(self).purge_queue() == old(self).purge_queue() || final(self).purge_queue()
                == old(self).purge_queue().remove(username@),
            final(self).alerted() == old(self).alerted() || final(self).alerted() == old(
                self,
            ).alerted().remove(username@),
            r is Err ==> exists|s: Set<Seq<char>>|
                s.subset_of(user_event_keys(old(self).events(), username@)) && final(self).events()
                    == old(self).events().remove_keys(s),
    {
        let ghost events0 = self.events();
        proof {
            assert(events0.remove_keys(Set::empty()) =~= events0);
            assert(Set::<Seq<char>>::empty().subset_of(user_event_keys(events0, username@)));
        }
        match self.remove_purged_user(username) {
            Ok(()) => {},
            Err(e) => {
                return Err(e);
            },
        }
        match self.remove_alerted_user(username) {
            Ok(()) => {},
            Err(e) => {
                return Err(e);
            },
        }
        self.remove_user_events(username)
    }
}

/// The grace period is sharp: an entry enqueued at `t0` is not due one
/// second before `t0 + purge_after`, and is due at `t0 + purge_after`.
pub proof fn lemma_purge_grace(t0: u64, purge_after: u64)
    requires
        1 <= purge_after,
        t0 + purge_after <= u64::MAX,
    ensures
        !purge_due_spec(t0, (t0 + purge_after - 1) as u64, purge_after),
        purge_due_spec(t0, (t0 + purge_after) as u64, purge_after),
{
}

/// Undo clears the queue: once a username is removed from the purge
/// queue, no scheduler pass over the resulting queue selects it, at any
/// time and with any grace period.
pub proof fn lemma_undo_clears_queue(
    queue: Map<Seq<char>, u64>,
    u: Seq<char>,
    now: u64,
    purge_after: u64,
)
    ensures
        !due_users(queue.remove(u), now, purge_after).contains(u),
{
}

} // verus!
