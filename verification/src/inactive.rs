//! The inactivity heuristic and the inactive-account sweep.
//!
//! An account counts as inactive when its activity feed is empty and,
//! where the corresponding checks are on, it owns no API tokens and no
//! OAuth2 grants.  The host program performs the three forge queries and
//! hands the answers in; a query that failed comes in as `None` and
//! counts as "not empty", which fails closed toward treating the account
//! as active, and so protected.

use vstd::prelude::*;

use crate::account::Account;
use crate::config::Inactive;
use crate::text::{contains_string, contains_u32};

verus! {

/// How a sub-check's answer counts: an account passes a check that is
/// off; otherwise only a definite "empty" passes, and a failed query
/// (`None`) counts as not empty.
pub open spec fn sub_check_empty_spec(result: Option<bool>, enabled: bool) -> bool {
    !enabled || result == Some(true)
}

/// How a sub-check's answer counts toward inactivity.
pub fn sub_check_empty(result: Option<bool>, enabled: bool) -> (r: bool)
    ensures
        r == sub_check_empty_spec(result, enabled),
{
    !enabled || matches!(result, Some(true))
}

/// Whether the account counts as inactive, from the three query answers:
/// the feed must be empty, and each enabled sub-check must have answered
/// a definite "empty".
pub open spec fn is_inactive_spec(
    feed_empty: bool,
    tokens_empty: Option<bool>,
    apps_empty: Option<bool>,
    check_tokens: bool,
    check_apps: bool,
) -> bool {
    feed_empty && sub_check_empty_spec(tokens_empty, check_tokens) && sub_check_empty_spec(
        apps_empty,
        check_apps,
    )
}

/// Whether the account counts as inactive, from the three query answers.
pub fn is_inactive(
    feed_empty: bool,
    tokens_empty: Option<bool>,
    apps_empty: Option<bool>,
    check_tokens: bool,
    check_apps: bool,
) -> (r: bool)
    ensures
        r == is_inactive_spec(feed_empty, tokens_empty, apps_empty, check_tokens, check_apps),
{
    feed_empty && sub_check_empty(tokens_empty, check_tokens) && sub_check_empty(
        apps_empty,
        check_apps,
    )
}

/// Whether the sweep must leave the account alone: administrators, the
/// explicit exclude list, excluded login sources, and — when a source
/// allow-list is given — every source not on it.
pub open spec fn sweep_excluded_spec(user: Account, cfg: Inactive) -> bool {
    ||| user.is_admin
    ||| exists|i: int| 0 <= i < cfg.exclude@.len() && cfg.exclude@[i]@ == user.username@
    ||| cfg.source_id_exclude@.contains(user.source_id)
    ||| (cfg.source_id@.len() > 0 && !cfg.source_id@.contains(user.source_id))
}

/// Whether the sweep must leave the account alone.
pub fn sweep_excluded(user: &Account, cfg: &Inactive) -> (r: bool)
    ensures
        r == sweep_excluded_spec(*user, *cfg),
{
    if user.is_admin {
        return true;
    }
    if contains_string(&cfg.exclude, user.username.as_str()) {
        return true;
    }
    if contains_u32(&cfg.source_id_exclude, user.source_id) {
        return true;
    }
    cfg.source_id.len() > 0 && !contains_u32(&cfg.source_id, user.source_id)
}

/// Whether an account created at `created` has passed the inactivity age
/// threshold of `days` days at time `now` (both unix seconds).  An
/// account from the future has not.
pub fn past_inactive_threshold(created: u64, now: u64, days: u64) -> (r: bool)
    ensures
        r == (created <= now && now - created >= days * 86400),
{
    if created > now {
        return false;
    }
    ((now - created) as u128) >= (days as u128) * 86400
}

/// What one sweep step does with one account.
#[derive(Clone, Copy, Debug, PartialEq, Eq, Structural)]
pub enum SweepAction {
    /// The account is excluded from the sweep; nothing is queried.
    Excluded,
    /// The account counts as inactive: purge it.
    Purge,
    /// The account stays: it is active, a query failed, or this is a dry
    /// run.
    Spare,
}

/// What the sweep does with `user`, once the inactivity answer is in
/// (`None`: the queries were not made or failed).
pub open spec fn sweep_action_spec(
    user: Account,
    cfg: Inactive,
    dry_run: bool,
    inactive: Option<bool>,
) -> SweepAction {
    if sweep_excluded_spec(user, cfg) {
        SweepAction::Excluded
    } else if inactive == Some(true) && !dry_run {
        SweepAction::Purge
    } else {
        SweepAction::Spare
    }
}

/// What the sweep does with `user`.
pub fn sweep_action(user: &Account, cfg: &Inactive, dry_run: bool, inactive: Option<bool>) -> (a:
    SweepAction)
    ensures
        a == sweep_action_spec(*user, *cfg, dry_run, inactive),
{
    if sweep_excluded(user, cfg) {
        SweepAction::Excluded
    } else if matches!(inactive, Some(true)) && !dry_run {
        SweepAction::Purge
    } else {
        SweepAction::Spare
    }
}

/// The forge requests one sweep step spent: none for an excluded
/// account; the feed probe, the purge call and the enabled sub-checks
/// for a purged one; the feed probe alone otherwise.
pub fn sweep_request_cost(a: &SweepAction, cfg: &Inactive) -> (n: u32)
    ensures
        *a is Excluded ==> n == 0,
        *a is Purge ==> n == 2 + (if cfg.check_tokens {
            1u32
        } else {
            0u32
        }) + (if cfg.check_oauth2 {
            1u32
        } else {
            0u32
        }),
        *a is Spare ==> n == 1,
{
    match a {
        SweepAction::Excluded => 0,
        SweepAction::Purge => {
            let mut n: u32 = 2;
            if cfg.check_tokens {
                n = n + 1;
            }
            if cfg.check_oauth2 {
                n = n + 1;
            }
            n
        },
        SweepAction::Spare => 1,
    }
}

} // verus!
