//! Defaults of the rule-driven checks.

use vstd::prelude::*;

use crate::config::BanAction;

verus! {

/// Seconds between two polls for new accounts.
pub const POLL_INTERVAL: u32 = 300;

/// Accounts fetched per page.
pub const PAGE_LIMIT: u32 = 100;

/// Requests allowed per window.
pub const REQ_LIMIT: u32 = 200;

/// The window, in seconds, for the request budget.
pub const REQ_INTERVAL: u32 = 10 * 60;

/// Default interval between polls for new accounts.
pub fn interval() -> (r: u32)
    ensures
        r == POLL_INTERVAL,
{
    POLL_INTERVAL
}

/// Default number of accounts to fetch per page.
pub fn limit() -> (r: u32)
    ensures
        r == PAGE_LIMIT,
{
    PAGE_LIMIT
}

/// Default ban action.
pub fn ban_action() -> (r: BanAction)
    ensures
        r is Purge,
{
    BanAction::Purge
}

/// Default request budget per window.
pub fn req_limit() -> (r: u32)
    ensures
        r == REQ_LIMIT,
{
    REQ_LIMIT
}

/// Default request-budget window in seconds.
pub fn req_interval() -> (r: u32)
    ensures
        r == REQ_INTERVAL,
{
    REQ_INTERVAL
}

} // verus!
