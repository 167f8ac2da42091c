//! Sort orders understood by the forge's account-listing endpoint.

use vstd::prelude::*;

verus! {

/// Sort order for the account listing.
#[derive(Clone, Copy, Debug, PartialEq, Eq, Structural)]
pub enum Sort {
    Newest,
    RecentUpdate,
    Oldest,
}

impl Sort {
    /// Returns `true` if the sort order is `newest`.
    pub fn is_newest(&self) -> (r: bool)
        ensures
            r == (*self is Newest),
    {
        matches!(self, Self::Newest)
    }

    /// Returns `true` if the sort order is `recentupdate`.
    pub fn is_recent_update(&self) -> (r: bool)
        ensures
            r == (*self is RecentUpdate),
    {
        matches!(self, Self::RecentUpdate)
    }

    /// The query-parameter value of this sort order.
    pub fn as_str(&self) -> (r: &str)
        ensures
            *self is Newest ==> r@ == "newest"@,
            *self is RecentUpdate ==> r@ == "recentupdate"@,
            *self is Oldest ==> r@ == "oldest"@,
    {
        match self {
            Self::Newest => "newest",
            Self::RecentUpdate => "recentupdate",
            Self::Oldest => "oldest",
        }
    }
}

} // verus!
