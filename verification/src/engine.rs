//! The engine state that decides publishing and feed subscriptions, and the
//! bookkeeping rules of the strategy task's evaluation cycle.
use vstd::prelude::*;

use crate::gate::{
    gate_outcome, publish_gate, publish_result, publish_status, disabled_text, is_paper_mode, not_paper_status_text,
    publishing_allowed, PublishGate,
};
use crate::market::{stale_at, text_view, MarketTick};
use crate::subscriptions::{fresh_keys, key_texts, SubscriptionLedger};
use vstd::string::*;

verus! {

/// The part of the strategy engine that stands between its decisions and the
/// outside world: whether it is armed, how many entries it has published this
/// session, and which feed keys it has already asked for.
pub struct StrategyEngine {
    /// Master switch. When false nothing is published.
    pub enabled: bool,
    /// Signals published this session.
    pub entries_today: usize,
    /// Feed keys already requested from the bridge.
    pub subscribed: SubscriptionLedger,
}

impl StrategyEngine {
    /// An engine with nothing published and nothing subscribed.
    pub fn new(enabled: bool) -> (e: Self)
        ensures
            e.enabled == enabled,
            e.entries_today == 0,
            e.subscribed() == Set::<Seq<char>>::empty(),
    {
        StrategyEngine { enabled, entries_today: 0, subscribed: SubscriptionLedger::new() }
    }

    /// The feed keys already requested.
    pub open spec fn subscribed(&self) -> Set<Seq<char>> {
        self.subscribed@
    }

    /// Decide whether a decision's signal may be published — only in PAPER
    /// mode, only while enabled, and only while the signal keeps its
    /// paper-only marking.
    ///
    /// `signal` is `None` when the decision carries no signal, and otherwise
    /// that signal's paper-only marking. A refusal is not a failure: in LIVE
    /// mode it is the expected outcome.
    pub fn publish(&self, mode: &str, signal: Option<bool>) -> (g: PublishGate)
        ensures
            g matches PublishGate::Refused(reason) ==> gate_outcome(self.enabled, mode@, signal)
                == Some(reason@),
            g is Refused <==> gate_outcome(self.enabled, mode@, signal) is Some,
            g is NoSignal <==> (publishing_allowed(self.enabled, mode@) && signal is None),
            g is Send <==> (publishing_allowed(self.enabled, mode@) && signal == Some(true)),
    {
        publish_gate(self.enabled, mode, signal)
    }

    /// Conclude publishing a decision's signal, once the caller has sent it
    /// where [`Self::publish`] said `Send`: `send_error` is `None` when the
    /// signal was delivered, or the channel's error otherwise.
    ///
    /// Returns `Ok(true)` when a signal was published, `Ok(false)` when the
    /// decision carried none, and the reason when publishing was refused or
    /// the send failed. The session's entry count rises by one exactly when a
    /// signal was published, and nothing else changes.
    pub fn finish_publish(&mut self, mode: &str, signal: Option<bool>, send_error: Option<String>) -> (r:
        Result<bool, String>)
        requires
            publish_result(old(self).enabled, mode@, signal, text_view(send_error)) == Ok::<
                bool,
                Seq<char>,
            >(true) ==> old(self).entries_today < usize::MAX,
        ensures
            r is Ok <==> publish_result(old(self).enabled, mode@, signal, text_view(send_error)) is Ok,
            r matches Ok(b) ==> publish_result(old(self).enabled, mode@, signal, text_view(send_error))
                == Ok::<bool, Seq<char>>(b),
            r matches Err(e) ==> publish_result(old(self).enabled, mode@, signal, text_view(send_error))
                == Err::<bool, Seq<char>>(e@),
            final(self).entries_today == old(self).entries_today + (if r == Ok::<bool, String>(true) {
                1int
            } else {
                0int
            }),
            final(self).enabled == old(self).enabled,
            final(self).subscribed() == old(self).subscribed(),
    {
        match publish_gate(self.enabled, mode, signal) {
            PublishGate::Refused(reason) => Err(reason),
            PublishGate::NoSignal => Ok(false),
            PublishGate::Send => match send_error {
                Some(e) => {
                    let mut m = "signal channel closed: ".to_owned();
                    m.append(e.as_str());
                    Err(m)
                },
                None => {
                    self.entries_today = self.entries_today + 1;
                    Ok(true)
                },
            },
        }
    }

    /// Whether signals are being published, and when they are not, why.
    pub fn publish_status(&self, mode: &str) -> (r: (bool, Option<String>))
        ensures
            r.0 == publishing_allowed(self.enabled, mode@),
            r.1 is None <==> r.0,
            !self.enabled ==> (r.1 matches Some(s) && s@ == disabled_text()),
            self.enabled && !is_paper_mode(mode@) ==> (r.1 matches Some(s) && s@
                == not_paper_status_text(mode@)),
    {
        publish_status(self.enabled, mode)
    }

    /// Mark feed keys as subscribed, returning only the ones that are new,
    /// each once, in the order they appear in `keys`.
    pub fn newly_subscribed(&mut self, keys: &[String]) -> (fresh: Vec<String>)
        ensures
            key_texts(fresh@) == fresh_keys(old(self).subscribed(), key_texts(keys@)),
            forall|x: Seq<char>|
                final(self).subscribed().contains(x) <==> (old(self).subscribed().contains(x)
                    || key_texts(keys@).contains(x)),
            final(self).enabled == old(self).enabled,
            final(self).entries_today == old(self).entries_today,
    {
        self.subscribed.newly_subscribed(keys)
    }

    /// The keys to ask the bridge for now. While the feed connection is down
    /// nothing is requested and nothing is marked as requested.
    pub fn subscription_requests(&mut self, connected: bool, keys: &[String]) -> (fresh: Vec<String>)
        ensures
            !connected ==> fresh@.len() == 0 && final(self).subscribed() == old(self).subscribed(),
            connected ==> key_texts(fresh@) == fresh_keys(
                old(self).subscribed(),
                key_texts(keys@),
            ),
            connected ==> forall|x: Seq<char>|
                final(self).subscribed().contains(x) <==> (old(self).subscribed().contains(x)
                    || key_texts(keys@).contains(x)),
            final(self).enabled == old(self).enabled,
            final(self).entries_today == old(self).entries_today,
    {
        self.subscribed.requests_for(connected, keys)
    }

    /// Clear the subscribed set, so a new connection re-subscribes every feed.
    pub fn reset_subscribed(&mut self)
        ensures
            final(self).subscribed() == Set::<Seq<char>>::empty(),
            final(self).enabled == old(self).enabled,
            final(self).entries_today == old(self).entries_today,
    {
        self.subscribed.reset_subscribed();
    }
}

/// What the strategy task records about one evaluated decision.
#[derive(Clone, Copy, Debug)]
pub struct DecisionAudit {
    /// Log that a signal existed but the guard withheld it.
    pub log_withheld: bool,
    /// Keep an audit row of the decision.
    pub save_decision: bool,
    /// Log that a signal was published.
    pub log_published: bool,
}

/// Decide what to record about a decision, given whether the guard refused
/// it, whether it carried a signal, whether its debate was actionable, and
/// whether a signal was published.
///
/// A refusal is worth a log line only when a signal was actually withheld,
/// and only decisions that concluded something earn an audit row.
pub fn audit_decision(refused: bool, has_signal: bool, actionable: bool, published: bool) -> (a:
    DecisionAudit)
    ensures
        a.log_withheld == (refused && has_signal),
        a.save_decision == (has_signal || actionable),
        a.log_published == published,
{
    DecisionAudit {
        log_withheld: refused && has_signal,
        save_decision: has_signal || actionable,
        log_published: published,
    }
}

/// Whether an index's spot feed may be evaluated at `now_ms`: a tick must
/// exist and must not be stale. No spot, no opinion.
pub fn spot_is_fresh<N: Copy>(spot: Option<&MarketTick<N>>, now_ms: i64, max_age_ms: i64) -> (b:
    bool)
    ensures
        b == (spot matches Some(t) && !stale_at(t.updated_at_ms, now_ms, max_age_ms)),
{
    match spot {
        Some(t) => !t.is_stale(now_ms, max_age_ms),
        None => false,
    }
}

/// The outcome recorded when an index's spot feed is stale or absent.
pub fn stale_spot_outcome(spot_key: &str) -> (s: String)
    ensures
        s@ == spot_key@ + " spot feed is stale or absent — standing down"@,
{
    let mut s = spot_key.to_owned();
    s.append(" spot feed is stale or absent — standing down");
    s
}

/// Where the evaluation of one index stopped.
#[derive(Clone, Copy, Debug, PartialEq, Eq, Structural)]
pub enum Stage {
    /// The spot feed is stale or absent.
    SpotStale,
    /// The regime does not permit a long-premium entry.
    RegimeBlocked,
    /// The debate was not actionable.
    NotActionable,
    /// The scrip master has no records for the index.
    NoRecords,
    /// No strike passed the selection tests.
    NoStrike,
    /// The risk manager declined.
    RiskDeclined,
    /// The exit levels collapsed after tick rounding.
    LevelsCollapsed,
    /// The plan's reward:risk is below the minimum.
    RewardRiskThin,
    /// A signal was generated.
    Signal,
}

/// The stage evaluation stops at: the first failed test, in the order the
/// pipeline applies them, or `Signal` when every test passed.
pub open spec fn stage_of(
    spot_fresh: bool,
    regime_allowed: bool,
    actionable: bool,
    has_records: bool,
    strike_found: bool,
    risk_approved: bool,
    levels_separate: bool,
    reward_risk_ok: bool,
) -> Stage {
    if !spot_fresh {
        Stage::SpotStale
    } else if !regime_allowed {
        Stage::RegimeBlocked
    } else if !actionable {
        Stage::NotActionable
    } else if !has_records {
        Stage::NoRecords
    } else if !strike_found {
        Stage::NoStrike
    } else if !risk_approved {
        Stage::RiskDeclined
    } else if !levels_separate {
        Stage::LevelsCollapsed
    } else if !reward_risk_ok {
        Stage::RewardRiskThin
    } else {
        Stage::Signal
    }
}

/// The stage the evaluation of one index stops at, given the outcome of each
/// of its tests in order: spot freshness, the regime, the debate, the scrip
/// records, the strike search, the risk manager, the exit levels, and the
/// reward:risk of the plan.
pub fn evaluation_stage(
    spot_fresh: bool,
    regime_allowed: bool,
    actionable: bool,
    has_records: bool,
    strike_found: bool,
    risk_approved: bool,
    levels_separate: bool,
    reward_risk_ok: bool,
) -> (s: Stage)
    ensures
        s == stage_of(
            spot_fresh,
            regime_allowed,
            actionable,
            has_records,
            strike_found,
            risk_approved,
            levels_separate,
            reward_risk_ok,
        ),
        s == Stage::Signal <==> (spot_fresh && regime_allowed && actionable && has_records
            && strike_found && risk_approved && levels_separate && reward_risk_ok),
{
    if !spot_fresh {
        Stage::SpotStale
    } else if !regime_allowed {
        Stage::RegimeBlocked
    } else if !actionable {
        Stage::NotActionable
    } else if !has_records {
        Stage::NoRecords
    } else if !strike_found {
        Stage::NoStrike
    } else if !risk_approved {
        Stage::RiskDeclined
    } else if !levels_separate {
        Stage::LevelsCollapsed
    } else if !reward_risk_ok {
        Stage::RewardRiskThin
    } else {
        Stage::Signal
    }
}

/// The position of a stage in the pipeline.
pub open spec fn stage_rank(s: Stage) -> nat {
    match s {
        Stage::SpotStale => 0,
        Stage::RegimeBlocked => 1,
        Stage::NotActionable => 2,
        Stage::NoRecords => 3,
        Stage::NoStrike => 4,
        Stage::RiskDeclined => 5,
        Stage::LevelsCollapsed => 6,
        Stage::RewardRiskThin => 7,
        Stage::Signal => 8,
    }
}

/// Each stage is reached only past the tests before it: a strike is searched
/// for only after an actionable debate in a permitting regime on a fresh spot,
/// risk is consulted only once a strike was found, and a signal comes only
/// after risk approved and the plan passed both exit checks.
pub proof fn stages_follow_the_pipeline(
    spot_fresh: bool,
    regime_allowed: bool,
    actionable: bool,
    has_records: bool,
    strike_found: bool,
    risk_approved: bool,
    levels_separate: bool,
    reward_risk_ok: bool,
)
    ensures
        ({
            let r = stage_rank(
                stage_of(
                    spot_fresh,
                    regime_allowed,
                    actionable,
                    has_records,
                    strike_found,
                    risk_approved,
                    levels_separate,
                    reward_risk_ok,
                ),
            );
            &&& r > 0 ==> spot_fresh
            &&& r > 1 ==> regime_allowed
            &&& r > 2 ==> actionable
            &&& r > 3 ==> has_records
            &&& r > 4 ==> strike_found
            &&& r > 5 ==> risk_approved
            &&& r > 6 ==> levels_separate
            &&& r > 7 ==> reward_risk_ok
        }),
{
}

/// What one evaluation cycle of the strategy task does.
#[derive(Clone, Copy, Debug)]
pub struct CyclePlan {
    /// Keep the index spot feeds subscribed.
    pub subscribe_spots: bool,
    /// Roll the session's risk state.
    pub roll_session: bool,
    /// Evaluate every configured index.
    pub evaluate: bool,
}

/// Plan one evaluation cycle. Nothing happens while the market is closed.
/// The spot feeds stay subscribed even while the engine is disabled, so that
/// bar history accumulates before it is armed; evaluation needs the engine
/// enabled and the scrip master loaded.
pub fn plan_cycle(market_open: bool, enabled: bool, scrip_master_loaded: bool) -> (p: CyclePlan)
    ensures
        p.subscribe_spots == market_open,
        p.roll_session == (market_open && enabled),
        p.evaluate == (market_open && enabled && scrip_master_loaded),
{
    CyclePlan {
        subscribe_spots: market_open,
        roll_session: market_open && enabled,
        evaluate: market_open && enabled && scrip_master_loaded,
    }
}

} // verus!

verus! {

/// The reported stage names a test that failed, and every test before it
/// passed: evaluation stops at the first failure and nowhere else.
pub proof fn stage_is_the_first_failure(
    spot_fresh: bool,
    regime_allowed: bool,
    actionable: bool,
    has_records: bool,
    strike_found: bool,
    risk_approved: bool,
    levels_separate: bool,
    reward_risk_ok: bool,
)
    ensures
        ({
            let s = stage_of(
                spot_fresh,
                regime_allowed,
                actionable,
                has_records,
                strike_found,
                risk_approved,
                levels_separate,
                reward_risk_ok,
            );
            &&& s == Stage::SpotStale <==> !spot_fresh
            &&& s == Stage::RegimeBlocked <==> (spot_fresh && !regime_allowed)
            &&& s == Stage::NotActionable <==> (spot_fresh && regime_allowed && !actionable)
            &&& s == Stage::NoRecords <==> (spot_fresh && regime_allowed && actionable
                && !has_records)
            &&& s == Stage::NoStrike <==> (spot_fresh && regime_allowed && actionable && has_records
                && !strike_found)
            &&& s == Stage::RiskDeclined <==> (spot_fresh && regime_allowed && actionable
                && has_records && strike_found && !risk_approved)
            &&& s == Stage::LevelsCollapsed <==> (spot_fresh && regime_allowed && actionable
                && has_records && strike_found && risk_approved && !levels_separate)
            &&& s == Stage::RewardRiskThin <==> (spot_fresh && regime_allowed && actionable
                && has_records && strike_found && risk_approved && levels_separate
                && !reward_risk_ok)
            &&& s == Stage::Signal <==> (spot_fresh && regime_allowed && actionable && has_records
                && strike_found && risk_approved && levels_separate && reward_risk_ok)
        }),
{
}

} // verus!
