use trading_engine::analysts::{OptionSide, OrderFlowAnalyst, TechnicalAnalyst};
use trading_engine::signal::{signal_id, signal_tags, strip_separators};
use trading_engine::market::{FeedFrame, MarketTick};
use trading_engine::text::decimal;

#[test]
fn warm_up_reports_progress_until_enough_bars() {
    let note = TechnicalAnalyst::warmup_note(5, 30).expect("still warming up");
    assert!(note.contains("warming up"));
    assert_eq!(note, "warming up — 5 of 30 bars");
    assert_eq!(TechnicalAnalyst::warmup_note(30, 30), None);
    assert_eq!(OrderFlowAnalyst::warmup_note(0, 10).as_deref(), Some("warming up — 0 of 10 bars"));
    assert_eq!(OrderFlowAnalyst::warmup_note(40, 30), None);
}

#[test]
fn option_types_route_to_their_side() {
    assert_eq!(OrderFlowAnalyst::option_side("CE"), Some(OptionSide::Call));
    assert_eq!(OrderFlowAnalyst::option_side("PE"), Some(OptionSide::Put));
    assert_eq!(OrderFlowAnalyst::option_side("ce"), None);
    assert_eq!(OrderFlowAnalyst::option_side("FUT"), None);
    assert_eq!(OrderFlowAnalyst::option_side(""), None);
}

#[test]
fn decimal_matches_to_string() {
    for n in [0u64, 7, 10, 99, 100, 24_850, u64::MAX] {
        assert_eq!(decimal(n), n.to_string());
    }
}

#[test]
fn signal_ids_drop_timestamp_separators() {
    assert_eq!(strip_separators("2026-08-25 11:00:00"), "20260825110000");
    assert_eq!(signal_id("NIFTY", "2026-08-25 11:00:00"), "algo-NIFTY-20260825110000");
    assert_eq!(signal_id("BANKNIFTY", ""), "algo-BANKNIFTY-");
}

#[test]
fn signal_tags_are_buy_above_and_paper_only() {
    let t = signal_tags("NIFTY", "2026-08-25 11:00:00");
    assert_eq!(t.action, "BUY");
    assert_eq!(t.entry_condition, "ABOVE");
    assert_eq!(t.source, "algo");
    assert_eq!(t.signal_id, "algo-NIFTY-20260825110000");
    assert!(t.paper_only);
}

#[test]
fn chain_oi_ignores_stale_and_missing_quotes() {
    let mut fresh: MarketTick<f64> = MarketTick::new("nse_fo|1");
    let mut f = FeedFrame::empty();
    f.oi = Some(100_000.0);
    fresh.merge_from(&f, 10_000);
    let mut stale: MarketTick<f64> = MarketTick::new("nse_fo|2");
    let mut g = FeedFrame::empty();
    g.oi = Some(900_000.0);
    stale.merge_from(&g, 0);

    assert_eq!(
        OrderFlowAnalyst::chain_contribution(Some(&fresh), "CE", 12_000, 5_000),
        Some((OptionSide::Call, 100_000.0))
    );
    assert_eq!(OrderFlowAnalyst::chain_contribution(Some(&stale), "CE", 12_000, 5_000), None, "stale OI must not be counted");
    assert_eq!(OrderFlowAnalyst::chain_contribution::<f64>(None, "PE", 12_000, 5_000), None, "absent contracts contribute nothing");
    assert_eq!(OrderFlowAnalyst::chain_contribution(Some(&fresh), "FUT", 12_000, 5_000), None);
    let no_oi: MarketTick<f64> = MarketTick::new("nse_fo|4");
    assert_eq!(OrderFlowAnalyst::chain_contribution(Some(&no_oi), "PE", 0, 5_000), None);
}
