//! Structured alert data handed to the chat front ends.
//!
//! The engine never formats messages; it exposes the account, the matched
//! rule and an activity flag, and the front end does the wording.

use vstd::prelude::*;
use vstd::string::StrSliceExecFns;

use crate::account::Account;
use crate::config::BanAction;
use crate::rules::RegexReason;

verus! {

/// An alert about one account: the account, the rule that matched, and
/// whether the account looked active.
pub struct UserAlert {
    /// The account the alert concerns.
    pub user: Account,
    /// The rule that matched it.
    pub reason: RegexReason,
    /// For a ban request: the account is active.  For a suspicion alert:
    /// an activity notice.
    pub is_active: bool,
}

impl UserAlert {
    /// A new alert, not yet marked active.
    pub fn new(user: Account, reason: RegexReason) -> (r: Self)
        ensures
            r.user == user,
            r.reason == reason,
            !r.is_active,
    {
        Self { user, reason, is_active: false }
    }

    /// Set the activity flag.
    pub fn is_active(self, yes: bool) -> (r: Self)
        ensures
            r.user == self.user,
            r.reason == self.reason,
            r.is_active == yes,
    {
        Self { is_active: yes, ..self }
    }
}

/// The text itself, or nothing when it is empty — a front end then shows
/// its own "not found" wording.
pub fn not_found_if_empty(text: &str) -> (r: Option<&str>)
    ensures
        match r {
            Some(t) => t@ == text@ && text@.len() > 0,
            None => text@.len() == 0,
        },
{
    if text.unicode_len() == 0 {
        None
    } else {
        Some(text)
    }
}

/// The plain word for a ban action, for a front end to build wording from.
pub fn action_word(ban_action: &BanAction) -> (r: &'static str)
    ensures
        *ban_action is Purge ==> r@ == "purge"@,
        *ban_action is Suspend ==> r@ == "suspend"@,
{
    if ban_action.is_purge() {
        "purge"
    } else {
        "suspend"
    }
}

} // verus!
