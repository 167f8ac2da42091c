//! The persistent store: the four tables, the reaction state machine,
//! and the deferred purge scheduler's selection.

use forgejo_guardian::{BanReactionStep, Store};

#[test]
fn alerted_round_trip() {
    let mut s = Store::open_in_memory().unwrap();
    assert!(!s.is_alerted("alice").unwrap());
    s.add_alerted_user("alice").unwrap();
    assert!(s.is_alerted("alice").unwrap());
    assert!(!s.is_alerted("bob").unwrap());
    s.remove_alerted_user("alice").unwrap();
    assert!(!s.is_alerted("alice").unwrap());
}

#[test]
fn ignored_is_recorded() {
    let mut s = Store::open_in_memory().unwrap();
    assert!(!s.is_ignored("alice").unwrap());
    s.add_ignored_user("alice").unwrap();
    assert!(s.is_ignored("alice").unwrap());
}

#[test]
fn purge_queue_round_trip() {
    let mut s = Store::open_in_memory().unwrap();
    assert!(!s.is_lazy_purged("alice").unwrap());
    s.add_purged_user("alice", 1000).unwrap();
    assert!(s.is_lazy_purged("alice").unwrap());
    s.remove_purged_user("alice").unwrap();
    assert!(!s.is_lazy_purged("alice").unwrap());
}

#[test]
fn events_anchor_usernames() {
    let mut s = Store::open_in_memory().unwrap();
    assert_eq!(s.get_username("$e1").unwrap(), None);
    s.add_event("$e1", "alice").unwrap();
    s.add_event("$e2", "alice").unwrap();
    s.add_event("$e3", "bob").unwrap();
    assert_eq!(s.get_username("$e1").unwrap().as_deref(), Some("alice"));
    assert_eq!(s.get_username("$e3").unwrap().as_deref(), Some("bob"));
    s.remove_event("$e1").unwrap();
    assert_eq!(s.get_username("$e1").unwrap(), None);
    assert_eq!(s.get_username("$e2").unwrap().as_deref(), Some("alice"));
}

#[test]
fn remove_user_events_touches_one_user_only() {
    let mut s = Store::open_in_memory().unwrap();
    s.add_event("$e1", "alice").unwrap();
    s.add_event("$e2", "alice").unwrap();
    s.add_event("$e3", "bob").unwrap();
    s.remove_user_events("alice").unwrap();
    assert_eq!(s.get_username("$e1").unwrap(), None);
    assert_eq!(s.get_username("$e2").unwrap(), None);
    assert_eq!(s.get_username("$e3").unwrap().as_deref(), Some("bob"));
}

#[test]
fn ignore_reaction_clears_alert_and_events() {
    let mut s = Store::open_in_memory().unwrap();
    s.add_alerted_user("alice").unwrap();
    s.add_event("$e1", "alice").unwrap();
    s.handle_ignore_reaction("alice").unwrap();
    assert!(s.is_ignored("alice").unwrap());
    assert!(!s.is_alerted("alice").unwrap());
    assert_eq!(s.get_username("$e1").unwrap(), None);
}

#[test]
fn ban_reaction_queues_under_lazy_purge() {
    let mut s = Store::open_in_memory().unwrap();
    let step = s.handle_ban_reaction("alice", true, 500).unwrap();
    assert!(matches!(step, BanReactionStep::Queued));
    assert!(s.is_lazy_purged("alice").unwrap());
    let again = s.handle_ban_reaction("alice", true, 600).unwrap();
    assert!(matches!(again, BanReactionStep::AlreadyQueued));
}

#[test]
fn ban_reaction_bans_directly_without_lazy_purge() {
    let mut s = Store::open_in_memory().unwrap();
    let step = s.handle_ban_reaction("alice", false, 500).unwrap();
    assert!(matches!(step, BanReactionStep::BanNow));
    assert!(!s.is_lazy_purged("alice").unwrap());
}

#[test]
fn finish_moderated_ban_clears_state() {
    let mut s = Store::open_in_memory().unwrap();
    s.add_alerted_user("alice").unwrap();
    s.add_event("$e1", "alice").unwrap();
    s.finish_moderated_ban("alice").unwrap();
    assert!(!s.is_alerted("alice").unwrap());
    assert_eq!(s.get_username("$e1").unwrap(), None);
}

#[test]
fn undo_reaction_clears_queue_and_events() {
    let mut s = Store::open_in_memory().unwrap();
    s.add_purged_user("alice", 500).unwrap();
    s.add_event("$e1", "alice").unwrap();
    let undone = s.handle_undo_reaction("alice", true).unwrap();
    assert!(undone);
    assert!(!s.is_lazy_purged("alice").unwrap());
    assert_eq!(s.get_username("$e1").unwrap(), None);
}

#[test]
fn undo_reaction_is_a_no_op_when_not_queued() {
    let mut s = Store::open_in_memory().unwrap();
    assert!(!s.handle_undo_reaction("alice", true).unwrap());
    s.add_purged_user("alice", 500).unwrap();
    assert!(!s.handle_undo_reaction("alice", false).unwrap());
    assert!(s.is_lazy_purged("alice").unwrap());
}

#[test]
fn purge_grace_period_is_sharp() {
    let mut s = Store::open_in_memory().unwrap();
    let t0 = 1000u64;
    let purge_after = 7200u64;
    s.add_purged_user("alice", t0).unwrap();
    let before = s.purge_due(t0 + purge_after - 1, purge_after).unwrap();
    assert!(before.is_empty());
    let at = s.purge_due(t0 + purge_after, purge_after).unwrap();
    assert_eq!(at, vec!["alice".to_string()]);
}

#[test]
fn undone_purge_is_never_selected() {
    let mut s = Store::open_in_memory().unwrap();
    s.add_purged_user("alice", 0).unwrap();
    s.add_purged_user("bob", 0).unwrap();
    s.handle_undo_reaction("alice", true).unwrap();
    let due = s.purge_due(1_000_000, 10).unwrap();
    assert_eq!(due, vec!["bob".to_string()]);
}

#[test]
fn complete_purge_clears_all_three_tables() {
    let mut s = Store::open_in_memory().unwrap();
    s.add_purged_user("alice", 0).unwrap();
    s.add_alerted_user("alice").unwrap();
    s.add_event("$e1", "alice").unwrap();
    s.complete_purge("alice").unwrap();
    assert!(!s.is_lazy_purged("alice").unwrap());
    assert!(!s.is_alerted("alice").unwrap());
    assert_eq!(s.get_username("$e1").unwrap(), None);
}
