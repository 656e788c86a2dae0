use trading_engine::engine::{
    audit_decision, evaluation_stage, plan_cycle, spot_is_fresh, stale_spot_outcome, Stage, StrategyEngine,
};
use trading_engine::market::{FeedFrame, MarketTick};
use trading_engine::gate::PublishGate;
use trading_engine::signal::signal_tags;

fn enabled_engine() -> StrategyEngine {
    StrategyEngine::new(true)
}

fn refusal(g: PublishGate) -> String {
    match g {
        PublishGate::Refused(reason) => reason,
        other => panic!("expected a refusal, got {other:?}"),
    }
}

#[test]
fn refuses_to_publish_in_live_mode() {
    let e = enabled_engine();
    let g = e.publish("LIVE", Some(true));
    assert!(!matches!(g, PublishGate::Send), "nothing may reach the order path in LIVE mode");
    let err = refusal(g);
    assert!(err.contains("PAPER mode only"), "got: {err}");
}

#[test]
fn publishes_in_paper_mode() {
    let mut e = enabled_engine();
    assert!(matches!(e.publish("PAPER", Some(true)), PublishGate::Send));
    assert_eq!(e.finish_publish("PAPER", Some(true), None), Ok(true));
    let tags = signal_tags("NIFTY", "2026-08-25 11:00:00");
    assert!(tags.paper_only, "every published algo signal must stay marked paper_only");
    assert_eq!(tags.action, "BUY", "the engine must never emit a sell");
    assert_eq!(e.entries_today, 1);
}

#[test]
fn a_disabled_engine_publishes_nothing_even_in_paper_mode() {
    let e = StrategyEngine::new(false);
    assert!(matches!(e.publish("PAPER", Some(true)), PublishGate::Refused(_)));
}

#[test]
fn refuses_a_signal_that_lost_its_paper_marking() {
    let e = enabled_engine();
    let err = refusal(e.publish("PAPER", Some(false)));
    assert!(err.contains("paper_only"), "got: {err}");
}

#[test]
fn unknown_modes_are_treated_as_not_paper() {
    let e = enabled_engine();
    for mode in ["live", "paper", "Paper", "", "BACKTEST"] {
        assert!(
            matches!(e.publish(mode, Some(true)), PublishGate::Refused(_)),
            "mode {mode:?} must not be accepted as PAPER"
        );
    }
}

#[test]
fn a_decision_with_no_signal_publishes_nothing_without_erroring() {
    let e = enabled_engine();
    let mut e = e;
    assert!(matches!(e.publish("PAPER", None), PublishGate::NoSignal));
    assert_eq!(e.finish_publish("PAPER", None, None), Ok(false));
    assert_eq!(e.entries_today, 0, "a no-op must not consume the entry budget");
}

#[test]
fn snapshot_reports_why_publishing_is_blocked() {
    let e = enabled_engine();
    let (publishing, reason) = e.publish_status("LIVE");
    assert!(!publishing);
    assert!(reason.unwrap().contains("PAPER mode only"));

    let (publishing, reason) = e.publish_status("PAPER");
    assert!(publishing);
    assert!(reason.is_none());
}

#[test]
fn refusal_reasons_name_the_first_failed_check() {
    assert_eq!(refusal(StrategyEngine::new(false).publish("LIVE", Some(false))), "strategy engine is disabled");
    let e = enabled_engine();
    assert_eq!(
        refusal(e.publish("LIVE", None)),
        "mode is LIVE — the algo publishes signals in PAPER mode only"
    );
    assert_eq!(
        refusal(e.publish("PAPER", Some(false))),
        "refusing to publish an algo signal that is not marked paper_only"
    );
}

#[test]
fn status_texts_match_the_dashboard_wording() {
    assert_eq!(
        StrategyEngine::new(false).publish_status("PAPER"),
        (false, Some("strategy engine is disabled".to_string()))
    );
    assert_eq!(
        enabled_engine().publish_status("paper"),
        (false, Some("mode is paper — algo signals publish in PAPER mode only".to_string()))
    );
}

#[test]
fn each_published_signal_counts_one_entry() {
    let mut e = enabled_engine();
    assert_eq!(e.finish_publish("PAPER", Some(true), None), Ok(true));
    assert_eq!(e.finish_publish("PAPER", Some(true), None), Ok(true));
    assert_eq!(e.entries_today, 2);
}

#[test]
fn a_failed_send_or_a_refusal_counts_nothing() {
    let mut e = enabled_engine();
    assert_eq!(
        e.finish_publish("PAPER", Some(true), Some("channel closed".to_string())),
        Err("signal channel closed: channel closed".to_string())
    );
    assert_eq!(e.entries_today, 0);
    assert!(e.finish_publish("LIVE", Some(true), None).unwrap_err().contains("PAPER mode only"));
    assert!(e.finish_publish("PAPER", Some(false), None).unwrap_err().contains("paper_only"));
    let mut off = StrategyEngine::new(false);
    assert_eq!(off.finish_publish("PAPER", Some(true), None), Err("strategy engine is disabled".to_string()));
    assert_eq!(e.entries_today, 0);
    assert_eq!(off.entries_today, 0);
}

#[test]
fn evaluation_stops_at_the_first_failed_stage() {
    assert_eq!(evaluation_stage(true, true, true, true, true, true, true, true), Stage::Signal);
    assert_eq!(evaluation_stage(false, false, false, false, false, false, false, false), Stage::SpotStale);
    assert_eq!(evaluation_stage(true, false, true, true, true, true, true, true), Stage::RegimeBlocked);
    assert_eq!(evaluation_stage(true, true, false, false, true, true, true, true), Stage::NotActionable);
    assert_eq!(evaluation_stage(true, true, true, false, true, true, true, true), Stage::NoRecords);
    assert_eq!(evaluation_stage(true, true, true, true, false, false, true, true), Stage::NoStrike);
    assert_eq!(evaluation_stage(true, true, true, true, true, false, true, true), Stage::RiskDeclined);
    assert_eq!(evaluation_stage(true, true, true, true, true, true, false, false), Stage::LevelsCollapsed);
    assert_eq!(evaluation_stage(true, true, true, true, true, true, true, false), Stage::RewardRiskThin);
}

#[test]
fn audit_records_only_conclusive_decisions() {
    let quiet = audit_decision(true, false, false, false);
    assert!(!quiet.log_withheld && !quiet.save_decision && !quiet.log_published);
    let withheld = audit_decision(true, true, true, false);
    assert!(withheld.log_withheld && withheld.save_decision && !withheld.log_published);
    let sent = audit_decision(false, true, true, true);
    assert!(!sent.log_withheld && sent.save_decision && sent.log_published);
    let actionable_only = audit_decision(false, false, true, false);
    assert!(actionable_only.save_decision && !actionable_only.log_withheld);
}

#[test]
fn the_cycle_subscribes_spots_before_the_engine_is_armed() {
    let closed = plan_cycle(false, true, true);
    assert!(!closed.subscribe_spots && !closed.roll_session && !closed.evaluate);
    let disarmed = plan_cycle(true, false, true);
    assert!(disarmed.subscribe_spots && !disarmed.roll_session && !disarmed.evaluate);
    let no_master = plan_cycle(true, true, false);
    assert!(no_master.subscribe_spots && no_master.roll_session && !no_master.evaluate);
    let full = plan_cycle(true, true, true);
    assert!(full.subscribe_spots && full.roll_session && full.evaluate);
}

#[test]
fn only_a_fresh_spot_tick_is_evaluated() {
    assert!(!spot_is_fresh::<f64>(None, 1_000, 10_000), "no feed must never be evaluated");
    let mut t: MarketTick<f64> = MarketTick::new("nse_cm|Nifty 50");
    let mut f = FeedFrame::empty();
    f.ltp = Some(24_000.0);
    t.merge_from(&f, 0);
    assert!(spot_is_fresh(Some(&t), 10_000, 10_000));
    assert!(!spot_is_fresh(Some(&t), 10_000_000, 10_000), "a stale tick is no data");
    let outcome = stale_spot_outcome("nse_cm|Nifty 50");
    assert!(outcome.contains("stale or absent"), "got: {outcome}");
    assert_eq!(outcome, "nse_cm|Nifty 50 spot feed is stale or absent — standing down");
}
