//! The rule engine: AND-within-rule, first-match-wins, field priority,
//! normalization, and the disabled flag.

use forgejo_guardian::{Account, Expr, Locations, Pattern, RegexReason};

fn account(username: &str, full_name: &str, biography: &str) -> Account {
    Account {
        id: 1,
        username: username.to_string(),
        full_name: full_name.to_string(),
        biography: biography.to_string(),
        email: String::new(),
        website: String::new(),
        location: String::new(),
        avatar_url: String::new(),
        html_url: String::new(),
        is_admin: false,
        source_id: 0,
        created: 0,
    }
}

fn rule(patterns: &[&str], reason: Option<&str>) -> RegexReason {
    let pats = patterns
        .iter()
        .map(|p| Pattern::compile(p).expect("valid pattern"))
        .collect();
    RegexReason::new(pats, reason.map(|r| r.to_string()))
}

fn ruleset_on_usernames(rules: Vec<RegexReason>) -> Expr {
    let mut e = Expr::default();
    e.enabled = true;
    e.usernames = rules;
    e
}

#[test]
fn and_within_rule_needs_both() {
    let e = ruleset_on_usernames(vec![rule(&[".*bot.*", "^x"], None)]);
    assert!(e.is_match(&account("xbot", "", "")).is_some());
    assert!(e.is_match(&account("abot", "", "")).is_none());
    assert!(e.is_match(&account("xyz", "", "")).is_none());
}

#[test]
fn first_match_wins_on_same_field() {
    let e = ruleset_on_usernames(vec![
        rule(&["^spam"], Some("first")),
        rule(&["spam"], Some("second")),
    ]);
    let m = e.is_match(&account("spam_42", "", "")).expect("should match");
    assert_eq!(m.reason.as_deref(), Some("first"));
}

#[test]
fn username_takes_precedence_over_bio() {
    let mut e = Expr::default();
    e.enabled = true;
    e.usernames = vec![rule(&["bot"], Some("name rule"))];
    e.biographies = vec![rule(&["crypto"], Some("bio rule"))];
    let m = e
        .is_match(&account("a_bot", "", "free crypto here"))
        .expect("should match");
    assert_eq!(m.reason.as_deref(), Some("name rule"));
    assert!(matches!(m.location, Locations::Username));
}

#[test]
fn disabled_ruleset_never_matches() {
    let mut e = ruleset_on_usernames(vec![rule(&["."], None)]);
    e.enabled = false;
    assert!(e.is_match(&account("anything", "", "")).is_none());
}

#[test]
fn multi_line_biography_is_matched_as_one_line() {
    let mut e = Expr::default();
    e.enabled = true;
    e.biographies = vec![rule(&["^spam bot$"], None)];
    assert!(e.is_match(&account("u", "", "spam\nbot")).is_some());
    assert!(e.is_match(&account("u", "", "spam bot")).is_some());
    assert!(e.is_match(&account("u", "", "spambot")).is_none());
}

#[test]
fn regex_is_really_consulted() {
    let e = ruleset_on_usernames(vec![rule(&["^x"], None)]);
    assert!(e.is_match(&account("xy", "", "")).is_some());
    assert!(e.is_match(&account("ay", "", "")).is_none());
}

#[test]
fn invalid_pattern_is_rejected() {
    assert!(Pattern::compile("[").is_none());
    assert!(Pattern::compile("^a+$").is_some());
}

#[test]
fn pattern_keeps_its_text() {
    let p = Pattern::compile("^a+$").expect("valid pattern");
    assert_eq!(p.as_str(), "^a+$");
    let q = p.clone();
    assert_eq!(q.as_str(), "^a+$");
}

#[test]
fn later_fields_are_tried_when_earlier_ones_fail() {
    let mut e = Expr::default();
    e.enabled = true;
    e.usernames = vec![rule(&["zzz"], None)];
    e.locations = vec![rule(&["moon"], Some("loc"))];
    let mut a = account("user", "", "");
    a.location = "the moon".to_string();
    let m = e.is_match(&a).expect("should match");
    assert_eq!(m.reason.as_deref(), Some("loc"));
    assert!(matches!(m.location, Locations::Location));
}

#[test]
fn location_words() {
    assert_eq!(Locations::Username.as_str(), "username");
    assert_eq!(Locations::Biographie.as_str(), "biography");
    assert_eq!(Locations::Unknown.as_str(), "N/A");
}
