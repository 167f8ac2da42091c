//! Defaults of the deferred purge scheduler.

use vstd::prelude::*;

verus! {

/// Seconds between two scheduler passes: one hour.
pub const PASS_INTERVAL: u32 = 60 * 60;

/// Requests allowed per window during a pass.
pub const PASS_REQ_LIMIT: u16 = 200;

/// The window, in seconds, for the pass's request budget.
pub const PASS_REQ_INTERVAL: u32 = 60 * 2;

/// The grace period, in seconds, before a queued purge runs: two hours.
pub const GRACE_PERIOD: u32 = (60 * 60) * 2;

/// Default interval between scheduler passes.
pub fn interval() -> (r: u32)
    ensures
        r == PASS_INTERVAL,
{
    PASS_INTERVAL
}

/// Default request budget per window.
pub fn req_limit() -> (r: u16)
    ensures
        r == PASS_REQ_LIMIT,
{
    PASS_REQ_LIMIT
}

/// Default request-budget window in seconds.
pub fn req_interval() -> (r: u32)
    ensures
        r == PASS_REQ_INTERVAL,
{
    PASS_REQ_INTERVAL
}

/// Default grace period before a queued purge runs.
pub fn purge_after() -> (r: u32)
    ensures
        r == GRACE_PERIOD,
{
    GRACE_PERIOD
}

} // verus!
