//! The account snapshot read from the forge.

use vstd::prelude::*;

verus! {

/// An immutable snapshot of a forge account, as returned by the account
/// listing.  The numeric `id` orders accounts and drives the fetch cursors;
/// the `username` keys all moderation state.  The creation time is held as
/// unix seconds.
pub struct Account {
    /// Account id, assigned by the forge in increasing order.
    pub id: u64,
    /// Username; assumed stable and unique.
    pub username: String,
    /// Full name.
    pub full_name: String,
    /// Biography (profile description); may span several lines.
    pub biography: String,
    /// Email address.
    pub email: String,
    /// Website.
    pub website: String,
    /// Location.
    pub location: String,
    /// Avatar URL.
    pub avatar_url: String,
    /// Profile URL.
    pub html_url: String,
    /// Whether the account is an instance administrator.
    pub is_admin: bool,
    /// The login source the account came from.
    pub source_id: u32,
    /// Creation time, unix seconds.
    pub created: u64,
}

impl Account {
    /// Returns `true` if the account is new: it was created within the given
    /// interval (in seconds) before `now` (unix seconds), or after `now`.
    pub fn is_new(&self, interval: u32, now: u64) -> (r: bool)
        ensures
            r == (self.created + interval >= now),
    {
        if self.created >= now {
            true
        } else {
            now - self.created <= interval as u64
        }
    }
}

impl Clone for Account {
    fn clone(&self) -> (r: Self)
        ensures
            r == *self,
    {
        Account {
            id: self.id,
            username: self.username.clone(),
            full_name: self.full_name.clone(),
            biography: self.biography.clone(),
            email: self.email.clone(),
            website: self.website.clone(),
            location: self.location.clone(),
            avatar_url: self.avatar_url.clone(),
            html_url: self.html_url.clone(),
            is_admin: self.is_admin,
            source_id: self.source_id,
            created: self.created,
        }
    }
}

} // verus!
