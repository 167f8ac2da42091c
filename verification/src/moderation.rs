//! Compound moderation-state operations and the reaction state machine.
//!
//! These build on the single-table store operations.  A compound operation
//! is a sequence of independent transactions, not one atomic unit: when a
//! step fails, the earlier steps stay done, and the contracts say exactly
//! how far the sequence can have come.

use vstd::prelude::*;

use crate::store::{Store, StoreError};
use crate::text::str_eq;

verus! {

/// The chat event ids that concern username `u`.
pub open spec fn user_event_keys(events: Map<Seq<char>, Seq<char>>, u: Seq<char>) -> Set<
    Seq<char>,
> {
    Set::new(|k: Seq<char>| events.dom().contains(k) && events[k] == u)
}

proof fn lemma_remove_keys_none(m: Map<Seq<char>, Seq<char>>)
    ensures
        m.remove_keys(Set::empty()) == m,
{
    assert(m.remove_keys(Set::empty()) =~= m);
}

impl Store {
    /// Delete every chat event that concerns `username`: a read pass over
    /// the events table followed by one delete per event, each its own
    /// transaction.  On an error partway, the events deleted so far stay
    /// deleted.
    pub fn remove_user_events(&mut self, username: &str) -> (r: Result<(), StoreError>)
        ensures
            final(self).alerted() == old(self).alerted(),
            final(self).ignored() == old(self).ignored(),
            final(self).purge_queue() == old(self).purge_queue(),
            r is Ok ==> final(self).events() == old(self).events().remove_keys(
                user_event_keys(old(self).events(), username@),
            ),
            r is Err ==> exists|s: Set<Seq<char>>|
                s.subset_of(user_event_keys(old(self).events(), username@)) && final(self).events()
                    == old(self).events().remove_keys(s),
    {
        let ghost events0 = self.events();
        let ghost targets = user_event_keys(events0, username@);
        let entries = match self.event_entries() {
            Ok(e) => e,
            Err(e) => {
                proof {
                    lemma_remove_keys_none(events0);
                    assert(Set::<Seq<char>>::empty().subset_of(targets));
                }
                return Err(e);
            },
        };
        let n = entries.len();
        let mut ids: Vec<String> = Vec::new();
        for i in 0..n
            invariant
                n == entries@.len(),
                events0 == old(self).events(),
                targets == user_event_keys(events0, username@),
                forall|l: int|
                    0 <= l < ids@.len() ==> targets.contains(#[trigger] ids@[l]@),
                forall|l: int|
                    0 <= l < i && events0[#[trigger] entries@[l].0@] == username@ ==> exists|m: int|
                        0 <= m < ids@.len() && ids@[m]@ == entries@[l].0@,
                forall|l: int|
                    0 <= l < entries@.len() ==> events0.dom().contains(#[trigger] entries@[l].0@)
                        && events0[entries@[l].0@] == entries@[l].1@,
        {
            let ghost ids_pre = ids@;
            if str_eq(entries[i].1.as_str(), username) {
                proof {
                    assert(events0[entries@[i as int].0@] == username@);
                    assert(targets.contains(entries@[i as int].0@));
                }
                ids.push(entries[i].0.clone());
                proof {
                    assert(ids@ == ids_pre.push(ids@[ids@.len() - 1]));
                    assert(ids@[ids@.len() - 1]@ == entries@[i as int].0@);
                    assert forall|l: int|
                        0 <= l < i + 1 && events0[#[trigger] entries@[l].0@]
                            == username@ implies exists|m: int|
                        0 <= m < ids@.len() && ids@[m]@ == entries@[l].0@ by {
                        if l < i {
                            let m0 = choose|m: int|
                                0 <= m < ids_pre.len() && ids_pre[m]@ == entries@[l].0@;
                            assert(ids@[m0]@ == entries@[l].0@);
                        } else {
                            assert(ids@[ids@.len() - 1]@ == entries@[l].0@);
                        }
                    }
                }
            } else {
                proof {
                    assert(entries@[i as int].1@ != username@);
                    assert(events0[entries@[i as int].0@] != username@);
                }
            }
        }
        proof {
            // every target key is listed in `ids`
            assert forall|k: Seq<char>| targets.contains(k) implies exists|m: int|
                0 <= m < ids@.len() && ids@[m]@ == k by {
                assert(events0.dom().contains(k));
                let l = choose|l: int| 0 <= l < entries@.len() && #[trigger] entries@[l].0@ == k;
                assert(events0[entries@[l].0@] == username@);
            }
        }
        let ghost mut removed: Set<Seq<char>> = Set::empty();
        proof {
            lemma_remove_keys_none(events0);
        }
        let kn = ids.len();
        for j in 0..kn
            invariant
                kn == ids@.len(),
                events0 == old(self).events(),
                targets == user_event_keys(events0, username@),
                removed.subset_of(targets),
                self.events() == events0.remove_keys(removed),
                self.alerted() == old(self).alerted(),
                self.ignored() == old(self).ignored(),
                self.purge_queue() == old(self).purge_queue(),
                forall|l: int| 0 <= l < ids@.len() ==> targets.contains(#[trigger] ids@[l]@),
                forall|k: Seq<char>|
                    targets.contains(k) ==> removed.contains(k) || exists|m: int|
                        j <= m < ids@.len() && ids@[m]@ == k,
        {
            match self.remove_event(ids[j].as_str()) {
                Ok(()) => {
                    proof {
                        let k = ids@[j as int]@;
                        assert(events0.remove_keys(removed).remove(k) =~= events0.remove_keys(
                            removed.insert(k),
                        ));
                        removed = removed.insert(k);
                    }
                },
                Err(e) => {
                    proof {
                        assert(removed.subset_of(user_event_keys(old(self).events(), username@)));
                        assert(self.events() == old(self).events().remove_keys(removed));
                    }
                    return Err(e);
                },
            }
        }
        proof {
            assert(removed =~= targets);
        }
        Ok(())
    }

    /// Resolve a moderator's ignore reaction: record the username as
    /// ignored, then clear its pending alert and its chat events, each step
    /// its own transaction.
    pub fn handle_ignore_reaction(&mut self, username: &str) -> (r: Result<(), StoreError>)
        ensures
            final(self).purge_queue() == old(self).purge_queue(),
            r is Ok ==> final(self).ignored() == old(self).ignored().insert(username@),
            r is Ok ==> final(self).alerted() == old(self).alerted().remove(username@),
            r is Ok ==> final(self).events() == old(self).events().remove_keys(
                user_event_keys(old(self).events(), username@),
            ),
            final(self).ignored() == old(self).ignored() || final(self).ignored() == old(self).ignored().insert(username@),
            final(self).alerted() == old(self).alerted() || final(self).alerted() == old(self).alerted().remove(username@),
            r is Err ==> exists|s: Set<Seq<char>>|
                s.subset_of(user_event_keys(old(self).events(), username@)) && final(self).events()
                    == old(self).events().remove_keys(s),
            r is Ok ==> final(self).ignored().contains(username@),
    {
        let ghost events0 = self.events();
        match self.add_ignored_user(username) {
            Ok(()) => {},
            Err(e) => {
                proof {
                    lemma_remove_keys_none(events0);
                    assert(Set::<Seq<char>>::empty().subset_of(
                        user_event_keys(events0, username@),
                    ));
                }
                return Err(e);
            },
        }
        match self.remove_alerted_user(username) {
            Ok(()) => {},
            Err(e) => {
                proof {
                    lemma_remove_keys_none(events0);
                    assert(Set::<Seq<char>>::empty().subset_of(
                        user_event_keys(events0, username@),
                    ));
                }
                return Err(e);
            },
        }
        self.remove_user_events(username)
    }

    /// Finish a moderator-approved direct ban: clear the username's pending
    /// alert and its chat events.  The caller has already banned the
    /// account (or is in dry run).
    pub fn finish_moderated_ban(&mut self, username: &str) -> (r: Result<(), StoreError>)
        ensures
            final(self).purge_queue() == old(self).purge_queue(),
            final(self).ignored() == old(self).ignored(),
            r is Ok ==> final(self).alerted() == old(self).alerted().remove(username@),
            r is Ok ==> final(self).events() == old(self).events().remove_keys(
                user_event_keys(old(self).events(), username@),
            ),
            final(self).alerted() == old(self).alerted() || final(self).alerted() == old(self).alerted().remove(username@),
            r is Err ==> exists|s: Set<Seq<char>>|
                s.subset_of(user_event_keys(old(self).events(), username@)) && final(self).events()
                    == old(self).events().remove_keys(s),
    {
        let ghost events0 = self.events();
        match self.remove_alerted_user(username) {
            Ok(()) => {},
            Err(e) => {
                proof {
                    lemma_remove_keys_none(events0);
                    assert(Set::<Seq<char>>::empty().subset_of(
                        user_event_keys(events0, username@),
                    ));
                }
                return Err(e);
            },
        }
        self.remove_user_events(username)
    }

    /// Resolve a moderator's undo reaction.  Valid only while the username
    /// is queued for a deferred purge and deferred purging is on: then the
    /// queue entry and the username's chat events are cleared and `true`
    /// comes back.  Otherwise nothing changes and `false` comes back.
    pub fn handle_undo_reaction(&mut self, username: &str, lazy_purge_enabled: bool) -> (r: Result<
        bool,
        StoreError,
    >)
        ensures
            final(self).alerted() == old(self).alerted(),
            final(self).ignored() == old(self).ignored(),
            r matches Ok(true) ==> lazy_purge_enabled && old(self).purge_queue().dom().contains(
                username@,
            ) && final(self).purge_queue() == old(self).purge_queue().remove(username@) && final(self).events() == old(self).events().remove_keys(
                user_event_keys(old(self).events(), username@),
            ),
            r matches Ok(false) ==> (!lazy_purge_enabled || !old(self).purge_queue().dom().contains(
                username@,
            )) && final(self).purge_queue() == old(self).purge_queue() && final(self).events()
                == old(self).events(),
            final(self).purge_queue() == old(self).purge_queue() || final(self).purge_queue()
                == old(self).purge_queue().remove(username@),
            r is Err ==> exists|s: Set<Seq<char>>|
                s.subset_of(user_event_keys(old(self).events(), username@)) && final(self).events()
                    == old(self).events().remove_keys(s),
    {
        let ghost events0 = self.events();
        proof {
            lemma_remove_keys_none(events0);
            assert(Set::<Seq<char>>::empty().subset_of(user_event_keys(events0, username@)));
        }
        if !lazy_purge_enabled {
            return Ok(false);
        }
        let queued = match self.is_lazy_purged(username) {
            Ok(b) => b,
            Err(e) => {
                return Err(e);
            },
        };
        if !queued {
            return Ok(false);
        }
        match self.remove_purged_user(username) {
            Ok(()) => {},
            Err(e) => {
                return Err(e);
            },
        }
        match self.remove_user_events(username) {
            Ok(()) => Ok(true),
            Err(e) => Err(e),
        }
    }
}

/// What a moderator's ban reaction requires of the caller.
pub enum BanReactionStep {
    /// The username was already queued for a purge; the reaction is a
    /// no-op.
    AlreadyQueued,
    /// The username has been put on the purge queue; the front end should
    /// offer an undo affordance.
    Queued,
    /// The caller must ban the account now (unless in dry run) and, on
    /// success, call `finish_moderated_ban`.
    BanNow,
}

impl Store {
    /// Resolve a moderator's ban reaction.  With deferred purging on, the
    /// username moves to the purge queue (enqueued at `now`) instead of
    /// being banned at once; without it, the caller is told to ban.
    pub fn handle_ban_reaction(
        &mut self,
        username: &str,
        lazy_purge_enabled: bool,
        now: u64,
    ) -> (r: Result<BanReactionStep, StoreError>)
        ensures
            final(self).alerted() == old(self).alerted(),
            final(self).ignored() == old(self).ignored(),
            final(self).events() == old(self).events(),
            r matches Ok(step) ==> match step {
                BanReactionStep::AlreadyQueued => old(self).purge_queue().dom().contains(username@)
                    && final(self).purge_queue() == old(self).purge_queue(),
                BanReactionStep::Queued => lazy_purge_enabled && !old(self).purge_queue().dom().contains(username@) && final(self).purge_queue() == old(self).purge_queue().insert(username@, now),
                BanReactionStep::BanNow => !lazy_purge_enabled && !old(self).purge_queue().dom().contains(username@) && final(self).purge_queue() == old(self).purge_queue(),
            },
            r is Err ==> final(self).purge_queue() == old(self).purge_queue(),
    {
        let queued = match self.is_lazy_purged(username) {
            Ok(b) => b,
            Err(e) => {
                return Err(e);
            },
        };
        if queued {
            return Ok(BanReactionStep::AlreadyQueued);
        }
        if lazy_purge_enabled {
            match self.add_purged_user(username, now) {
                Ok(()) => Ok(BanReactionStep::Queued),
                Err(e) => Err(e),
            }
        } else {
            Ok(BanReactionStep::BanNow)
        }
    }
}

} // verus!
