//! The inactivity heuristic and the inactive-account sweep.

use forgejo_guardian::{
    is_inactive, past_inactive_threshold, sweep_action, sweep_excluded, sweep_request_cost,
    Account, Inactive, SweepAction,
};

fn account(username: &str, source_id: u32) -> Account {
    Account {
        id: 1,
        username: username.to_string(),
        full_name: String::new(),
        biography: String::new(),
        email: String::new(),
        website: String::new(),
        location: String::new(),
        avatar_url: String::new(),
        html_url: String::new(),
        is_admin: false,
        source_id,
        created: 0,
    }
}

#[test]
fn inactive_needs_every_enabled_check_empty() {
    assert!(is_inactive(true, Some(true), Some(true), true, true));
    assert!(!is_inactive(false, Some(true), Some(true), true, true));
    assert!(!is_inactive(true, Some(false), Some(true), true, true));
    assert!(!is_inactive(true, Some(true), Some(false), true, true));
}

#[test]
fn disabled_sub_checks_are_ignored() {
    assert!(is_inactive(true, Some(false), Some(false), false, false));
    assert!(is_inactive(true, None, None, false, false));
}

#[test]
fn failed_sub_check_counts_as_active() {
    // a failed token or grant query fails closed: the account stays
    assert!(!is_inactive(true, None, Some(true), true, true));
    assert!(!is_inactive(true, Some(true), None, true, true));
}

#[test]
fn sweep_exclusions() {
    let cfg = Inactive {
        exclude: vec!["keep_me".to_string()],
        source_id: vec![2],
        source_id_exclude: vec![9],
        ..Inactive::default()
    };
    let mut admin = account("root", 2);
    admin.is_admin = true;
    assert!(sweep_excluded(&admin, &cfg));
    assert!(sweep_excluded(&account("keep_me", 2), &cfg));
    assert!(sweep_excluded(&account("other", 9), &cfg));
    // not on the source allow-list
    assert!(sweep_excluded(&account("other", 3), &cfg));
    assert!(!sweep_excluded(&account("other", 2), &cfg));
}

#[test]
fn age_threshold_is_sharp() {
    // 30 days are 2,592,000 seconds
    assert!(!past_inactive_threshold(0, 2_591_999, 30));
    assert!(past_inactive_threshold(0, 2_592_000, 30));
    // an account from the future never passes
    assert!(!past_inactive_threshold(100, 50, 0));
}

#[test]
fn sweep_actions() {
    let cfg = Inactive::default();
    let user = account("old_user", 0);
    assert_eq!(sweep_action(&user, &cfg, false, Some(true)), SweepAction::Purge);
    assert_eq!(sweep_action(&user, &cfg, true, Some(true)), SweepAction::Spare);
    assert_eq!(sweep_action(&user, &cfg, false, Some(false)), SweepAction::Spare);
    assert_eq!(sweep_action(&user, &cfg, false, None), SweepAction::Spare);
    let mut admin = user.clone();
    admin.is_admin = true;
    assert_eq!(sweep_action(&admin, &cfg, false, Some(true)), SweepAction::Excluded);
}

#[test]
fn sweep_costs() {
    let cfg = Inactive::default();
    assert_eq!(sweep_request_cost(&SweepAction::Excluded, &cfg), 0);
    assert_eq!(sweep_request_cost(&SweepAction::Purge, &cfg), 4);
    assert_eq!(sweep_request_cost(&SweepAction::Spare, &cfg), 1);
    let lean = Inactive { check_tokens: false, check_oauth2: false, ..Inactive::default() };
    assert_eq!(sweep_request_cost(&SweepAction::Purge, &lean), 2);
}
