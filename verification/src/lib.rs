//! Moderation engine for a self-hosted code forge.
//!
//! The crate audits forge accounts against configured rule sets, keeps a
//! persistent record of pending moderation state so that no account is
//! processed twice for the same condition, schedules deferred ("lazy")
//! purges with a grace window, and drives the cursor logic of the paginated
//! account fetchers.  All decision logic is verified; calls into the regex
//! engine and the embedded key-value store stand behind trusted wrappers.

mod account;
mod alert;
mod config;
pub mod defaults;
mod fetcher;
mod inactive;
mod moderation;
mod pipeline;
mod purge;
mod rules;
mod sort;
mod store;
mod text;

pub use account::Account;
pub use alert::{action_word, not_found_if_empty, UserAlert};
pub use config::{BanAction, Config, Exprs, Forgejo, Inactive, LazyPurge};
pub use fetcher::{
    any_seen, budget_exhausted, budget_needs_reserve, contains_u64, filter_newer, initial_ids,
    lemma_newer_than, lemma_window_stops, max_id, newer_than, prefix_unseen, retry_backoff, skip_before_check,
    take_until_seen, window_ids, MAX_RETRIES, RETRY_INTERVAL, UPDATED_USERS_COUNT,
};
pub use inactive::{
    is_inactive, is_inactive_spec, past_inactive_threshold, sub_check_empty, sub_check_empty_spec,
    sweep_action, sweep_action_spec, sweep_excluded, sweep_excluded_spec, sweep_request_cost,
    SweepAction,
};
pub use moderation::{user_event_keys, BanReactionStep};
pub use pipeline::{
    check_user, decision_spec, lemma_ban_precedes_sus, lemma_dedup_idempotent,
    lemma_dry_run_never_bans, marks_alerted, protected_spec, request_cost, request_cost_spec,
    wants_inactivity, wants_inactivity_spec, Decision, DecisionView, GateState,
};
pub use purge::{covers_due, due_users, is_purge_due, lemma_purge_grace, lemma_undo_clears_queue, purge_due_spec};
pub use rules::{
    all_accept, eval_field, first_match, lemma_field_priority, lemma_first_match_wins,
    lemma_rule_needs_all, normalize, normalized, rule_matches, Expr, Locations, Pattern,
    RegexReason, RuleView,
};
pub use sort::Sort;
pub use store::{Store, StoreError};
pub use text::{contains_string, contains_u32, str_eq};
