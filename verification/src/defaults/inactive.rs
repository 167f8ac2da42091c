//! Defaults of the inactive-account sweep.

use vstd::prelude::*;

verus! {

/// Days without activity after which an account counts as inactive.
pub const SWEEP_DAYS: u64 = 30;

/// Requests allowed per window during the sweep.
pub const SWEEP_REQ_LIMIT: u16 = 200;

/// The window, in seconds, for the sweep's request budget.
pub const SWEEP_REQ_INTERVAL: u32 = 10 * 60;

/// Seconds between two sweeps: seven days.
pub const SWEEP_INTERVAL: u32 = 7 * 24 * 60 * 60;

/// The sweep is off unless asked for.
pub fn enabled() -> (r: bool)
    ensures
        !r,
{
    false
}

/// Default inactivity threshold in days.
pub fn days() -> (r: u64)
    ensures
        r == SWEEP_DAYS,
{
    SWEEP_DAYS
}

/// Default request budget per window.
pub fn req_limit() -> (r: u16)
    ensures
        r == SWEEP_REQ_LIMIT,
{
    SWEEP_REQ_LIMIT
}

/// Default request-budget window in seconds.
pub fn req_interval() -> (r: u32)
    ensures
        r == SWEEP_REQ_INTERVAL,
{
    SWEEP_REQ_INTERVAL
}

/// Default interval between sweeps.
pub fn interval() -> (r: u32)
    ensures
        r == SWEEP_INTERVAL,
{
    SWEEP_INTERVAL
}

} // verus!
