//! The fetch cursors: the newest-strategy watermark, the recently-updated
//! sliding window, and the request budget.

use forgejo_guardian::{
    budget_exhausted, budget_needs_reserve, contains_u64, filter_newer, initial_ids, max_id,
    retry_backoff, skip_before_check, take_until_seen, window_ids, Account, Sort,
};

fn account_with_id(id: u64) -> Account {
    Account {
        id,
        username: format!("user{}", id),
        full_name: String::new(),
        biography: String::new(),
        email: String::new(),
        website: String::new(),
        location: String::new(),
        avatar_url: String::new(),
        html_url: String::new(),
        is_admin: false,
        source_id: 0,
        created: 0,
    }
}

fn ids(accounts: &[Account]) -> Vec<u64> {
    accounts.iter().map(|a| a.id).collect()
}

#[test]
fn watermark_keeps_only_newer_accounts() {
    let page = vec![account_with_id(5), account_with_id(7), account_with_id(9)];
    let kept = filter_newer(page, 7);
    assert_eq!(ids(&kept), vec![9]);
}

#[test]
fn watermark_keeps_page_order() {
    let page = vec![
        account_with_id(12),
        account_with_id(3),
        account_with_id(10),
        account_with_id(7),
    ];
    let kept = filter_newer(page, 7);
    assert_eq!(ids(&kept), vec![12, 10]);
}

#[test]
fn sliding_window_stops_at_a_seen_id() {
    let window = vec![3, 4];
    let page = vec![
        account_with_id(9),
        account_with_id(8),
        account_with_id(3),
        account_with_id(2),
    ];
    let (kept, caught_up) = take_until_seen(page, &window);
    assert_eq!(ids(&kept), vec![9, 8]);
    assert!(caught_up);
}

#[test]
fn sliding_window_passes_an_unseen_page_through() {
    let window = vec![3, 4];
    let page = vec![account_with_id(9), account_with_id(8)];
    let (kept, caught_up) = take_until_seen(page, &window);
    assert_eq!(ids(&kept), vec![9, 8]);
    assert!(!caught_up);
}

#[test]
fn new_watermark_is_the_largest_id() {
    let users = vec![account_with_id(9), account_with_id(42), account_with_id(17)];
    assert_eq!(max_id(&users), 42);
}

#[test]
fn new_window_takes_the_first_ids() {
    let users: Vec<Account> = (0..10).map(|i| account_with_id(100 - i)).collect();
    let w = window_ids(&users, 7);
    assert_eq!(w, vec![100, 99, 98, 97, 96, 95, 94]);
    let short = window_ids(&users[..3].to_vec(), 7);
    assert_eq!(short, vec![100, 99, 98]);
}

#[test]
fn initial_cursor_falls_back_to_id_one() {
    assert_eq!(initial_ids(Vec::new()), vec![1]);
    assert_eq!(initial_ids(vec![8, 9]), vec![8, 9]);
}

#[test]
fn budget_checks() {
    assert!(!budget_exhausted(199, 200));
    assert!(budget_exhausted(200, 200));
    assert!(!budget_needs_reserve(196, 200));
    assert!(budget_needs_reserve(197, 200));
}

#[test]
fn retry_backoff_is_linear() {
    assert_eq!(retry_backoff(1), 30);
    assert_eq!(retry_backoff(2), 60);
    assert_eq!(retry_backoff(10), 300);
}

#[test]
fn admins_and_fresh_updates_are_passed_over() {
    let mut admin = account_with_id(5);
    admin.is_admin = true;
    assert!(skip_before_check(&Sort::Newest, &admin, 300, 1000));
    let mut fresh = account_with_id(6);
    fresh.created = 900;
    assert!(skip_before_check(&Sort::RecentUpdate, &fresh, 300, 1000));
    assert!(!skip_before_check(&Sort::Newest, &fresh, 300, 1000));
    let mut old = account_with_id(7);
    old.created = 100;
    assert!(!skip_before_check(&Sort::RecentUpdate, &old, 300, 1000));
}

#[test]
fn window_membership() {
    let w = vec![1, 5, 9];
    assert!(contains_u64(&w, 5));
    assert!(!contains_u64(&w, 4));
}
