//! The runtime knobs the moderation engine depends on, as plain values.
//!
//! Reading and validating the configuration file is the host program's
//! business; the engine only consumes the resulting values.

use vstd::prelude::*;

use crate::rules::Expr;

verus! {

/// Ban action to take when banning an account.
#[derive(Clone, Copy, Debug, PartialEq, Eq, Structural)]
pub enum BanAction {
    /// Forcibly delete the account and everything it owns.
    Purge,
    /// Block the account from signing in, keeping its data.
    Suspend,
}

impl BanAction {
    /// Returns `true` if the action is `Purge`.
    pub fn is_purge(&self) -> (r: bool)
        ensures
            r == (*self is Purge),
    {
        matches!(self, Self::Purge)
    }
}

/// How to reach the forge instance.
pub struct Forgejo {
    /// The API token the engine authenticates with.
    pub token: String,
    /// The instance base URL.
    pub instance: String,
}

/// Configuration of the inactive-account sweep.
pub struct Inactive {
    /// Whether the sweep runs at all.
    pub enabled: bool,
    /// Usernames never to purge.
    pub exclude: Vec<String>,
    /// Login sources to consider; empty means all.
    pub source_id: Vec<u32>,
    /// Login sources to exclude.
    pub source_id_exclude: Vec<u32>,
    /// Whether an account with API tokens counts as active.
    pub check_tokens: bool,
    /// Whether an account with OAuth2 grants counts as active.
    pub check_oauth2: bool,
    /// Days without activity after which an account counts as inactive.
    pub days: u64,
    /// Requests allowed per window during the sweep.
    pub req_limit: u16,
    /// The window, in seconds, for the request budget.
    pub req_interval: u32,
    /// Seconds between two sweeps.
    pub interval: u32,
}

impl Default for Inactive {
    /// The sweep is off by default; token and OAuth2 checks are on.
    fn default() -> (r: Self)
        ensures
            !r.enabled,
            r.exclude@.len() == 0,
            r.source_id@.len() == 0,
            r.source_id_exclude@.len() == 0,
            r.check_tokens,
            r.check_oauth2,
            r.days == crate::defaults::inactive::SWEEP_DAYS,
            r.req_limit == crate::defaults::inactive::SWEEP_REQ_LIMIT,
            r.req_interval == crate::defaults::inactive::SWEEP_REQ_INTERVAL,
            r.interval == crate::defaults::inactive::SWEEP_INTERVAL,
    {
        Inactive {
            enabled: crate::defaults::inactive::enabled(),
            exclude: Vec::new(),
            source_id: Vec::new(),
            source_id_exclude: Vec::new(),
            check_tokens: true,
            check_oauth2: true,
            days: crate::defaults::inactive::days(),
            req_limit: crate::defaults::inactive::req_limit(),
            req_interval: crate::defaults::inactive::req_interval(),
            interval: crate::defaults::inactive::interval(),
        }
    }
}

/// Configuration of the rule-driven account checks.
pub struct Exprs {
    /// Whether to also sweep the existing (old) accounts once.
    pub check_existing_users: bool,
    /// Whether to also watch recently-updated accounts.
    pub check_updated_users: bool,
    /// Seconds between two polls for new accounts.
    pub interval: u32,
    /// Accounts fetched per page.
    pub limit: u32,
    /// Requests allowed per window.
    pub req_limit: u32,
    /// The window, in seconds, for the request budget.
    pub req_interval: u32,
    /// The action a matching ban rule triggers.
    pub ban_action: BanAction,
    /// Whether to send an alert when an account is banned.
    pub ban_alert: bool,
    /// Safe mode: ban requests instead of bans for active accounts.
    pub safe_mode: bool,
    /// Whether a suspicion alert is annotated with the account's activity.
    pub active_sus_notice: bool,
    /// Rules that ban an account directly.
    pub ban: Expr,
    /// Rules that only alert the moderators.
    pub sus: Expr,
}

impl Default for Exprs {
    fn default() -> (r: Self)
        ensures
            !r.check_existing_users,
            !r.check_updated_users,
            r.interval == crate::defaults::expressions::POLL_INTERVAL,
            r.limit == crate::defaults::expressions::PAGE_LIMIT,
            r.req_limit == crate::defaults::expressions::REQ_LIMIT,
            r.req_interval == crate::defaults::expressions::REQ_INTERVAL,
            r.ban_action is Purge,
            !r.ban_alert,
            !r.safe_mode,
            !r.active_sus_notice,
            !r.ban.enabled && r.ban.usernames@.len() == 0 && r.ban.full_names@.len() == 0
                && r.ban.biographies@.len() == 0 && r.ban.emails@.len() == 0
                && r.ban.websites@.len() == 0 && r.ban.locations@.len() == 0,
            !r.sus.enabled && r.sus.usernames@.len() == 0 && r.sus.full_names@.len() == 0
                && r.sus.biographies@.len() == 0 && r.sus.emails@.len() == 0
                && r.sus.websites@.len() == 0 && r.sus.locations@.len() == 0,
    {
        Exprs {
            check_existing_users: false,
            check_updated_users: false,
            interval: crate::defaults::expressions::interval(),
            limit: crate::defaults::expressions::limit(),
            req_limit: crate::defaults::expressions::req_limit(),
            req_interval: crate::defaults::expressions::req_interval(),
            ban_action: crate::defaults::expressions::ban_action(),
            ban_alert: false,
            safe_mode: false,
            active_sus_notice: false,
            ban: Expr::default(),
            sus: Expr::default(),
        }
    }
}

/// Configuration of the deferred ("lazy") purge scheduler.
pub struct LazyPurge {
    /// Whether deferred purging is on.
    pub enabled: bool,
    /// Seconds between two scheduler passes.
    pub interval: u32,
    /// Requests allowed per window during a pass.
    pub req_limit: u16,
    /// The window, in seconds, for the request budget.
    pub req_interval: u32,
    /// The grace period, in seconds, before a queued purge is executed.
    pub purge_after: u32,
}

impl Default for LazyPurge {
    fn default() -> (r: Self)
        ensures
            !r.enabled,
            r.interval == crate::defaults::lazy_purge::PASS_INTERVAL,
            r.req_limit == crate::defaults::lazy_purge::PASS_REQ_LIMIT,
            r.req_interval == crate::defaults::lazy_purge::PASS_REQ_INTERVAL,
            r.purge_after == crate::defaults::lazy_purge::GRACE_PERIOD,
    {
        LazyPurge {
            enabled: false,
            interval: crate::defaults::lazy_purge::interval(),
            req_limit: crate::defaults::lazy_purge::req_limit(),
            req_interval: crate::defaults::lazy_purge::req_interval(),
            purge_after: crate::defaults::lazy_purge::purge_after(),
        }
    }
}

/// Everything the engine needs to know at run time.
pub struct Config {
    /// Dry run: evaluate and alert, but never ban.
    pub dry_run: bool,
    /// Whether alerts should hide the account's email address.
    pub hide_user_email: bool,
    /// Whether an alert channel (a chat front end) is connected.
    pub alert_channel: bool,
    /// How to reach the forge.
    pub forgejo: Forgejo,
    /// The inactive-account sweep.
    pub inactive: Inactive,
    /// The rule-driven checks.
    pub expressions: Exprs,
    /// The deferred purge scheduler.
    pub lazy_purge: LazyPurge,
}

} // verus!
