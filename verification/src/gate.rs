//! The safety guard between an evaluated decision and the order path.
//!
//! A decision's signal is published only when the engine is enabled, the
//! trading mode is exactly `"PAPER"`, and the signal itself still carries its
//! paper-only marking. Anything else is refused with a reason, so that in LIVE
//! mode the pipeline runs and records what it would have done while nothing
//! reaches an order.
use vstd::prelude::*;
use vstd::string::*;

verus! {

/// What the guard decided for one decision.
#[derive(Debug)]
pub enum PublishGate {
    /// Publishing was refused, for the reason given.
    Refused(String),
    /// The decision carries no signal: nothing to publish, and nothing wrong.
    NoSignal,
    /// The signal may be sent.
    Send,
}

/// Whether `mode` names paper trading. Only the exact text `PAPER` does.
pub open spec fn is_paper_mode(mode: Seq<char>) -> bool {
    mode == "PAPER"@
}

/// Whether signals are published at all under this engine state and mode.
pub open spec fn publishing_allowed(enabled: bool, mode: Seq<char>) -> bool {
    enabled && is_paper_mode(mode)
}

pub open spec fn disabled_text() -> Seq<char> {
    "strategy engine is disabled"@
}

pub open spec fn not_paper_publish_text(mode: Seq<char>) -> Seq<char> {
    "mode is "@ + mode + " — the algo publishes signals in PAPER mode only"@
}

pub open spec fn not_paper_status_text(mode: Seq<char>) -> Seq<char> {
    "mode is "@ + mode + " — algo signals publish in PAPER mode only"@
}

pub open spec fn lost_marking_text() -> Seq<char> {
    "refusing to publish an algo signal that is not marked paper_only"@
}

/// The guard's decision, with `signal` giving, when the decision carries a
/// signal, that signal's paper-only marking.
///
/// The reason of a refusal is that of the first failing check, in the order:
/// engine enabled, mode, signal present, paper-only marking.
pub open spec fn gate_outcome(enabled: bool, mode: Seq<char>, signal: Option<bool>) -> Option<
    Seq<char>,
> {
    if !enabled {
        Some(disabled_text())
    } else if !is_paper_mode(mode) {
        Some(not_paper_publish_text(mode))
    } else {
        match signal {
            Some(false) => Some(lost_marking_text()),
            _ => None,
        }
    }
}

/// What publishing a decision's signal yields, with `send_error` giving the
/// channel's error when a permitted signal could not be delivered: `Ok(true)`
/// when the signal was published, `Ok(false)` when the decision carried none,
/// and the reason otherwise.
pub open spec fn publish_result(
    enabled: bool,
    mode: Seq<char>,
    signal: Option<bool>,
    send_error: Option<Seq<char>>,
) -> Result<bool, Seq<char>> {
    match gate_outcome(enabled, mode, signal) {
        Some(reason) => Err(reason),
        None => match signal {
            None => Ok(false),
            Some(_) => match send_error {
                Some(e) => Err("signal channel closed: "@ + e),
                None => Ok(true),
            },
        },
    }
}

fn mode_is_paper(mode: &str) -> (b: bool)
    ensures
        b == is_paper_mode(mode@),
{
    let m = mode.to_owned();
    let paper = "PAPER".to_owned();
    m == paper
}

/// Decide whether a decision's signal may be published.
///
/// `signal` is `None` when the decision carries no signal, and otherwise the
/// signal's paper-only marking.
pub(crate) fn publish_gate(enabled: bool, mode: &str, signal: Option<bool>) -> (g: PublishGate)
    ensures
        g matches PublishGate::Refused(reason) ==> gate_outcome(enabled, mode@, signal) == Some(
            reason@,
        ),
        g is Refused <==> gate_outcome(enabled, mode@, signal) is Some,
        g is NoSignal <==> (publishing_allowed(enabled, mode@) && signal is None),
        g is Send <==> (publishing_allowed(enabled, mode@) && signal == Some(true)),
{
    if !enabled {
        return PublishGate::Refused("strategy engine is disabled".to_owned());
    }
    if !mode_is_paper(mode) {
        let mut reason = "mode is ".to_owned();
        reason.append(mode);
        reason.append(" — the algo publishes signals in PAPER mode only");
        return PublishGate::Refused(reason);
    }
    match signal {
        None => PublishGate::NoSignal,
        Some(false) => PublishGate::Refused(
            "refusing to publish an algo signal that is not marked paper_only".to_owned(),
        ),
        Some(true) => PublishGate::Send,
    }
}

/// Whether the engine is publishing, and when it is not, why.
pub(crate) fn publish_status(enabled: bool, mode: &str) -> (r: (bool, Option<String>))
    ensures
        r.0 == publishing_allowed(enabled, mode@),
        r.1 is None <==> r.0,
        !enabled ==> (r.1 matches Some(s) && s@ == disabled_text()),
        enabled && !is_paper_mode(mode@) ==> (r.1 matches Some(s) && s@ == not_paper_status_text(
            mode@,
        )),
{
    if !enabled {
        (false, Some("strategy engine is disabled".to_owned()))
    } else if !mode_is_paper(mode) {
        let mut reason = "mode is ".to_owned();
        reason.append(mode);
        reason.append(" — algo signals publish in PAPER mode only");
        (false, Some(reason))
    } else {
        (true, None)
    }
}

/// The status the dashboard shows agrees with the guard: the engine reports
/// itself as publishing exactly when a paper-only signal would be sent.
pub proof fn status_agrees_with_gate(enabled: bool, mode: Seq<char>)
    ensures
        publishing_allowed(enabled, mode) <==> gate_outcome(enabled, mode, Some(true)) is None,
{
}

/// Outside paper mode, or with the engine disabled, every decision is
/// refused, whatever signal it carries.
pub proof fn nothing_passes_outside_paper_mode(enabled: bool, mode: Seq<char>, signal: Option<bool>)
    requires
        !publishing_allowed(enabled, mode),
    ensures
        gate_outcome(enabled, mode, signal) is Some,
{
}

/// A signal is published exactly when the engine is enabled, the mode is
/// `PAPER`, the decision carries a signal that keeps its paper-only marking,
/// and the channel delivered it.
pub proof fn published_exactly_when_permitted_and_delivered(
    enabled: bool,
    mode: Seq<char>,
    signal: Option<bool>,
    send_error: Option<Seq<char>>,
)
    ensures
        publish_result(enabled, mode, signal, send_error) == Ok::<bool, Seq<char>>(true) <==> (
        publishing_allowed(enabled, mode) && signal == Some(true) && send_error is None),
        publish_result(enabled, mode, signal, send_error) == Ok::<bool, Seq<char>>(false) <==> (
        publishing_allowed(enabled, mode) && signal is None),
{
}

/// A signal that lost its paper-only marking is never sent, in any mode.
pub proof fn unmarked_signals_never_pass(enabled: bool, mode: Seq<char>)
    ensures
        gate_outcome(enabled, mode, Some(false)) is Some,
{
}

} // verus!

verus! {

/// Every refusal gives its reason: a disabled engine says so; outside paper
/// mode the mode is named; a signal without its paper-only marking is named;
/// and a permitted signal the channel could not take reports the channel's
/// error.
pub proof fn refusals_give_their_reason(
    enabled: bool,
    mode: Seq<char>,
    signal: Option<bool>,
    send_error: Option<Seq<char>>,
)
    ensures
        !enabled ==> publish_result(enabled, mode, signal, send_error) == Err::<bool, Seq<char>>(
            "strategy engine is disabled"@,
        ),
        enabled && mode != "PAPER"@ ==> publish_result(enabled, mode, signal, send_error) == Err::<
            bool,
            Seq<char>,
        >("mode is "@ + mode + " — the algo publishes signals in PAPER mode only"@),
        enabled && mode == "PAPER"@ && signal == Some(false) ==> publish_result(
            enabled,
            mode,
            signal,
            send_error,
        ) == Err::<bool, Seq<char>>(
            "refusing to publish an algo signal that is not marked paper_only"@,
        ),
        enabled && mode == "PAPER"@ && signal == Some(true) ==> (send_error matches Some(e)
            ==> publish_result(enabled, mode, signal, send_error) == Err::<bool, Seq<char>>(
            "signal channel closed: "@ + e,
        )),
{
}

} // verus!
