//! Default values of the runtime knobs.

use vstd::prelude::*;

pub mod expressions;
pub mod inactive;
pub mod lazy_purge;

verus! {

/// A default that is simply `true`.
pub fn bool_true() -> (r: bool)
    ensures
        r,
{
    true
}

/// The default path of the persistent store.
pub fn database() -> (r: &'static str)
    ensures
        r@ == "/app/db.redb"@,
{
    "/app/db.redb"
}

} // verus!
