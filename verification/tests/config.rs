//! The runtime knobs, their defaults, and the small helpers around them.

use forgejo_guardian::defaults;
use forgejo_guardian::{
    action_word, not_found_if_empty, str_eq, Account, BanAction, Exprs, Inactive, LazyPurge,
    Pattern, RegexReason, Sort, UserAlert,
};

#[test]
fn expression_defaults() {
    let e = Exprs::default();
    assert_eq!(e.interval, 300);
    assert_eq!(e.limit, 100);
    assert_eq!(e.req_limit, 200);
    assert_eq!(e.req_interval, 600);
    assert!(matches!(e.ban_action, BanAction::Purge));
    assert!(!e.ban_alert && !e.safe_mode && !e.active_sus_notice);
    assert!(!e.ban.enabled && !e.sus.enabled);
    assert!(e.ban.usernames.is_empty() && e.sus.usernames.is_empty());
}

#[test]
fn inactive_defaults() {
    let i = Inactive::default();
    assert!(!i.enabled);
    assert!(i.check_tokens && i.check_oauth2);
    assert_eq!(i.days, 30);
    assert_eq!(i.req_limit, 200);
    assert_eq!(i.req_interval, 600);
    assert_eq!(i.interval, 7 * 24 * 60 * 60);
}

#[test]
fn lazy_purge_defaults() {
    let l = LazyPurge::default();
    assert!(!l.enabled);
    assert_eq!(l.interval, 3600);
    assert_eq!(l.req_limit, 200);
    assert_eq!(l.req_interval, 120);
    assert_eq!(l.purge_after, 7200);
}

#[test]
fn default_helpers() {
    assert!(defaults::bool_true());
    assert_eq!(defaults::database(), "/app/db.redb");
    assert_eq!(defaults::expressions::interval(), 300);
    assert_eq!(defaults::expressions::limit(), 100);
    assert_eq!(defaults::expressions::req_limit(), 200);
    assert_eq!(defaults::expressions::req_interval(), 600);
    assert!(matches!(defaults::expressions::ban_action(), BanAction::Purge));
    assert!(!defaults::inactive::enabled());
    assert_eq!(defaults::inactive::days(), 30);
    assert_eq!(defaults::inactive::req_limit(), 200);
    assert_eq!(defaults::inactive::req_interval(), 600);
    assert_eq!(defaults::inactive::interval(), 604_800);
    assert_eq!(defaults::lazy_purge::interval(), 3600);
    assert_eq!(defaults::lazy_purge::req_limit(), 200);
    assert_eq!(defaults::lazy_purge::req_interval(), 120);
    assert_eq!(defaults::lazy_purge::purge_after(), 7200);
}

#[test]
fn ban_action_kind() {
    assert!(BanAction::Purge.is_purge());
    assert!(!BanAction::Suspend.is_purge());
}

#[test]
fn sort_kinds_and_words() {
    assert!(Sort::Newest.is_newest());
    assert!(!Sort::Newest.is_recent_update());
    assert!(Sort::RecentUpdate.is_recent_update());
    assert_eq!(Sort::Newest.as_str(), "newest");
    assert_eq!(Sort::RecentUpdate.as_str(), "recentupdate");
    assert_eq!(Sort::Oldest.as_str(), "oldest");
}

#[test]
fn action_words() {
    assert_eq!(action_word(&BanAction::Purge), "purge");
    assert_eq!(action_word(&BanAction::Suspend), "suspend");
}

#[test]
fn empty_text_has_no_display_value() {
    assert_eq!(not_found_if_empty(""), None);
    assert_eq!(not_found_if_empty("hello"), Some("hello"));
}

#[test]
fn string_equality_is_by_characters() {
    assert!(str_eq("abc", "abc"));
    assert!(!str_eq("abc", "abd"));
    assert!(!str_eq("abc", "abcd"));
    assert!(str_eq("", ""));
}

#[test]
fn account_age() {
    let mut a = Account {
        id: 1,
        username: "u".to_string(),
        full_name: String::new(),
        biography: String::new(),
        email: String::new(),
        website: String::new(),
        location: String::new(),
        avatar_url: String::new(),
        html_url: String::new(),
        is_admin: false,
        source_id: 0,
        created: 1000,
    };
    assert!(a.is_new(300, 1300));
    assert!(!a.is_new(300, 1301));
    a.created = 2000;
    assert!(a.is_new(0, 1500));
}

#[test]
fn alerts_carry_their_flags() {
    let reason = RegexReason::new(
        vec![Pattern::compile("^x").unwrap()],
        Some("why".to_string()),
    );
    let user = Account {
        id: 7,
        username: "u".to_string(),
        full_name: String::new(),
        biography: String::new(),
        email: String::new(),
        website: String::new(),
        location: String::new(),
        avatar_url: String::new(),
        html_url: String::new(),
        is_admin: false,
        source_id: 0,
        created: 0,
    };
    let alert = UserAlert::new(user, reason);
    assert!(!alert.is_active);
    let alert = alert.is_active(true);
    assert!(alert.is_active);
    assert_eq!(alert.user.id, 7);
    assert_eq!(alert.reason.reason.as_deref(), Some("why"));
}
