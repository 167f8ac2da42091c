//! The per-account moderation pipeline.
//!
//! For each fetched account the pipeline first consults the dedup gate
//! (ignored, already alerted, or queued for purge means skip), then the
//! ban rule set, then the sus rule set, and decides what to do.  The
//! decision is a plain value: the host program carries out the network
//! side (the ban call, the alert delivery) and commits the store side
//! through [`Store::commit_decision`].

use vstd::prelude::*;

use crate::account::Account;
use crate::config::Config;
use crate::rules::{RegexReason, RuleView};
use crate::store::{Store, StoreError};

verus! {

/// The dedup gate's reading of the store for one username.
#[derive(Clone, Copy, Debug, PartialEq, Eq, Structural)]
pub struct GateState {
    /// The username is ignored: no automated action, ever.
    pub ignored: bool,
    /// The username has a pending, undecided alert.
    pub alerted: bool,
    /// The username is queued for a deferred purge.
    pub lazy_purged: bool,
}

impl GateState {
    /// Whether any pending state blocks further processing.
    pub open spec fn pending_spec(&self) -> bool {
        self.ignored || self.alerted || self.lazy_purged
    }

    /// Whether any pending state blocks further processing.
    pub fn pending(&self) -> (r: bool)
        ensures
            r == self.pending_spec(),
    {
        self.ignored || self.alerted || self.lazy_purged
    }
}

/// What the pipeline decided for one account.
pub enum Decision {
    /// Pending state or an admin account: nothing is done, nothing is sent.
    Skip,
    /// Safe mode protected an active account from a matching ban rule:
    /// mark it alerted and send a ban request to the moderators.
    BanRequest { reason: RegexReason },
    /// A ban rule matched under dry run: no ban, no store change; send a
    /// ban alert only if `alert`.
    DryRunBan { reason: RegexReason, alert: bool },
    /// A ban rule matched: ban the account; on success clear its pending
    /// alert; send a ban alert only if `alert`.
    Ban { reason: RegexReason, alert: bool },
    /// A sus rule matched: mark the account alerted and send a suspicion
    /// alert annotated with the activity flag.
    Sus { reason: RegexReason, is_active: bool },
    /// No rule matched: nothing to do.
    Nothing,
}

/// The mathematical content of a decision.
pub enum DecisionView {
    Skip,
    BanRequest { reason: RuleView },
    DryRunBan { reason: RuleView, alert: bool },
    Ban { reason: RuleView, alert: bool },
    Sus { reason: RuleView, is_active: bool },
    Nothing,
}

impl View for Decision {
    type V = DecisionView;

    open spec fn view(&self) -> DecisionView {
        match self {
            Decision::Skip => DecisionView::Skip,
            Decision::BanRequest { reason } => DecisionView::BanRequest { reason: reason@ },
            Decision::DryRunBan { reason, alert } => DecisionView::DryRunBan {
                reason: reason@,
                alert: *alert,
            },
            Decision::Ban { reason, alert } => DecisionView::Ban {
                reason: reason@,
                alert: *alert,
            },
            Decision::Sus { reason, is_active } => DecisionView::Sus {
                reason: reason@,
                is_active: *is_active,
            },
            Decision::Nothing => DecisionView::Nothing,
        }
    }
}

/// Safe mode protects the account: safe mode is on, a moderation channel
/// exists, and the inactivity check came back with "active" (`Some(false)`
/// means "not inactive").
pub open spec fn protected_spec(cfg: Config, inactivity: Option<bool>) -> bool {
    cfg.expressions.safe_mode && cfg.alert_channel && inactivity == Some(false)
}

/// What the pipeline decides for `user`, given the dedup gate's reading,
/// the configuration, and the inactivity answer (`None`: not queried, or
/// the query failed).  The ban rule set is consulted first and
/// short-circuits the sus rule set; the sus rule set is consulted only
/// when a moderation channel exists.
pub open spec fn decision_spec(
    user: Account,
    gate: GateState,
    cfg: Config,
    overwrite_ban_alert: bool,
    inactivity: Option<bool>,
) -> DecisionView {
    if user.is_admin || gate.pending_spec() {
        DecisionView::Skip
    } else {
        match cfg.expressions.ban.eval(user) {
            Some(reason) => {
                if protected_spec(cfg, inactivity) {
                    DecisionView::BanRequest { reason }
                } else if cfg.dry_run {
                    DecisionView::DryRunBan {
                        reason,
                        alert: cfg.expressions.ban_alert && cfg.alert_channel,
                    }
                } else {
                    DecisionView::Ban {
                        reason,
                        alert: cfg.expressions.ban_alert && cfg.alert_channel
                            && !overwrite_ban_alert,
                    }
                }
            },
            None => {
                if cfg.alert_channel {
                    match cfg.expressions.sus.eval(user) {
                        Some(reason) => DecisionView::Sus {
                            reason,
                            is_active: cfg.expressions.active_sus_notice && inactivity != Some(
                                true,
                            ),
                        },
                        None => DecisionView::Nothing,
                    }
                } else {
                    DecisionView::Nothing
                }
            },
        }
    }
}

/// Whether the pipeline will need the inactivity answer for `user` before
/// it can decide: either safe mode must judge a ban-rule match, or an
/// activity notice must annotate a sus-rule match.
pub open spec fn wants_inactivity_spec(user: Account, gate: GateState, cfg: Config) -> bool {
    if user.is_admin || gate.pending_spec() {
        false
    } else if cfg.expressions.ban.eval(user) is Some {
        cfg.expressions.safe_mode && cfg.alert_channel
    } else {
        cfg.alert_channel && cfg.expressions.sus.eval(user) is Some
            && cfg.expressions.active_sus_notice
    }
}

/// Decide what to do for `user`.
pub fn check_user(
    user: &Account,
    gate: &GateState,
    cfg: &Config,
    overwrite_ban_alert: bool,
    inactivity: Option<bool>,
) -> (d: Decision)
    ensures
        d@ == decision_spec(*user, *gate, *cfg, overwrite_ban_alert, inactivity),
{
    if user.is_admin || gate.pending() {
        return Decision::Skip;
    }
    if let Some(reason) = cfg.expressions.ban.is_match(user) {
        if cfg.expressions.safe_mode && cfg.alert_channel && matches!(inactivity, Some(false)) {
            return Decision::BanRequest { reason };
        }
        if cfg.dry_run {
            return Decision::DryRunBan {
                reason,
                alert: cfg.expressions.ban_alert && cfg.alert_channel,
            };
        }
        return Decision::Ban {
            reason,
            alert: cfg.expressions.ban_alert && cfg.alert_channel && !overwrite_ban_alert,
        };
    }
    if cfg.alert_channel {
        if let Some(reason) = cfg.expressions.sus.is_match(user) {
            let is_active = cfg.expressions.active_sus_notice && !matches!(
                inactivity,
                Some(true),
            );
            return Decision::Sus { reason, is_active };
        }
    }
    Decision::Nothing
}

/// Whether the pipeline will need the inactivity answer for `user`.
pub fn wants_inactivity(user: &Account, gate: &GateState, cfg: &Config) -> (b: bool)
    ensures
        b == wants_inactivity_spec(*user, *gate, *cfg),
{
    if user.is_admin || gate.pending() {
        return false;
    }
    if cfg.expressions.ban.is_match(user).is_some() {
        return cfg.expressions.safe_mode && cfg.alert_channel;
    }
    cfg.alert_channel && cfg.expressions.sus.is_match(user).is_some()
        && cfg.expressions.active_sus_notice
}

/// How many forge requests carrying out the decision takes, counting the
/// inactivity probes the decision consumed, as budgeted by the fetch loop.
pub open spec fn request_cost_spec(d: DecisionView, cfg: Config) -> u32 {
    match d {
        DecisionView::Skip => 0,
        DecisionView::BanRequest { .. } => 3,
        DecisionView::DryRunBan { .. } => 0,
        DecisionView::Ban { .. } => if cfg.expressions.safe_mode && cfg.alert_channel {
            4
        } else {
            1
        },
        DecisionView::Sus { .. } => if cfg.expressions.active_sus_notice {
            3
        } else {
            0
        },
        DecisionView::Nothing => 0,
    }
}

/// How many forge requests carrying out `d` takes.
pub fn request_cost(d: &Decision, cfg: &Config) -> (n: u32)
    ensures
        n == request_cost_spec(d@, *cfg),
{
    match d {
        Decision::Skip => 0,
        Decision::BanRequest { .. } => 3,
        Decision::DryRunBan { .. } => 0,
        Decision::Ban { .. } => if cfg.expressions.safe_mode && cfg.alert_channel {
            4
        } else {
            1
        },
        Decision::Sus { .. } => if cfg.expressions.active_sus_notice {
            3
        } else {
            0
        },
        Decision::Nothing => 0,
    }
}

/// Whether carrying out the decision marks the username as alerted.
pub open spec fn marks_alerted(d: DecisionView) -> bool {
    d is BanRequest || d is Sus
}

impl Store {
    /// The dedup gate's reading of this store for `username`.
    pub fn read_gate(&self, username: &str) -> (r: Result<GateState, StoreError>)
        ensures
            r matches Ok(g) ==> g.ignored == self.ignored().contains(username@) && g.alerted
                == self.alerted().contains(username@) && g.lazy_purged
                == self.purge_queue().dom().contains(username@),
    {
        let ignored = match self.is_ignored(username) {
            Ok(b) => b,
            Err(e) => {
                return Err(e);
            },
        };
        let alerted = match self.is_alerted(username) {
            Ok(b) => b,
            Err(e) => {
                return Err(e);
            },
        };
        let lazy_purged = match self.is_lazy_purged(username) {
            Ok(b) => b,
            Err(e) => {
                return Err(e);
            },
        };
        Ok(GateState { ignored, alerted, lazy_purged })
    }

    /// Commit the store side of a decision: a ban request or a suspicion
    /// alert marks the username as alerted; every other decision leaves
    /// the store as it is.
    pub fn commit_decision(&mut self, d: &Decision, username: &str) -> (r: Result<(), StoreError>)
        ensures
            final(self).ignored() == old(self).ignored(),
            final(self).purge_queue() == old(self).purge_queue(),
            final(self).events() == old(self).events(),
            r is Ok && marks_alerted(d@) ==> final(self).alerted() == old(self).alerted().insert(
                username@,
            ),
            r is Err ==> final(self).alerted() == old(self).alerted(),
            !marks_alerted(d@) ==> r is Ok && final(self).alerted() == old(self).alerted(),
    {
        match d {
            Decision::BanRequest { .. } => self.add_alerted_user(username),
            Decision::Sus { .. } => self.add_alerted_user(username),
            _ => Ok(()),
        }
    }
}

/// Idempotent dedup: for an account whose username has a pending alert,
/// a purge-queue entry, or an ignore mark, the pipeline decides `Skip` —
/// and committing `Skip` changes no table and carries no alert.  Here
/// `g` is any gate reading that truthfully reflects the store `s`, as
/// [`Store::read_gate`] returns it.
pub proof fn lemma_dedup_idempotent(
    s: Store,
    u: Seq<char>,
    g: GateState,
    user: Account,
    cfg: Config,
    overwrite_ban_alert: bool,
    inactivity: Option<bool>,
)
    requires
        g.ignored == s.ignored().contains(u),
        g.alerted == s.alerted().contains(u),
        g.lazy_purged == s.purge_queue().dom().contains(u),
        s.alerted().contains(u) || s.purge_queue().dom().contains(u) || s.ignored().contains(u),
    ensures
        decision_spec(user, g, cfg, overwrite_ban_alert, inactivity) is Skip,
        !marks_alerted(decision_spec(user, g, cfg, overwrite_ban_alert, inactivity)),
{
}

/// Ban precedes sus: when the ban rule set matches an account, the
/// decision follows the ban path; it is never a suspicion alert, whatever
/// the sus rule set would say of the same account.
pub proof fn lemma_ban_precedes_sus(
    user: Account,
    gate: GateState,
    cfg: Config,
    overwrite_ban_alert: bool,
    inactivity: Option<bool>,
)
    requires
        cfg.expressions.ban.eval(user) is Some,
    ensures
        !(decision_spec(user, gate, cfg, overwrite_ban_alert, inactivity) is Sus),
        !(decision_spec(user, gate, cfg, overwrite_ban_alert, inactivity) is Nothing),
{
}

/// Dry run never bans: with dry run on, no gate state, alert setting or
/// inactivity answer makes the pipeline decide a direct ban.
pub proof fn lemma_dry_run_never_bans(
    user: Account,
    gate: GateState,
    cfg: Config,
    overwrite_ban_alert: bool,
    inactivity: Option<bool>,
)
    requires
        cfg.dry_run,
    ensures
        !(decision_spec(user, gate, cfg, overwrite_ban_alert, inactivity) is Ban),
{
}

} // verus!
