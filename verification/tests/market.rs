use trading_engine::market::{feed_text, FeedFrame, MarketTick};

fn frame() -> FeedFrame<f64> {
    FeedFrame::empty()
}

#[test]
fn incremental_frames_do_not_erase_known_fields() {
    // First frame: a full snapshot.
    let mut tick: MarketTick<f64> = MarketTick::new("nse_fo|51386");
    let mut snapshot = frame();
    snapshot.ltp = Some(120.5);
    snapshot.oi = Some(45_000.0);
    snapshot.bp = Some(120.4);
    snapshot.sp = Some(120.6);
    snapshot.v = Some(88_000.0);
    tick.merge_from(&snapshot, 1_000);
    assert_eq!(tick.open_interest, Some(45_000.0));
    assert_eq!(tick.ltp, Some(120.5));

    // Second frame: a price-only delta.
    let mut delta = frame();
    delta.ltp = Some(121.0);
    tick.merge_from(&delta, 2_000);

    assert_eq!(tick.ltp, Some(121.0), "price must update");
    assert_eq!(tick.open_interest, Some(45_000.0), "OI must survive a delta frame that omits it");
    assert_eq!(tick.bid, Some(120.4), "bid must survive a delta frame");
    assert_eq!(tick.updated_at_ms, 2_000);
}

#[test]
fn staleness_is_measured_against_local_clock() {
    let mut t: MarketTick<f64> = MarketTick::new("k");
    let mut f = frame();
    f.ltp = Some(1.0);
    t.merge_from(&f, 10_000);
    assert!(!t.is_stale(12_000, 5_000));
    assert!(t.is_stale(16_000, 5_000));
}

#[test]
fn index_tick_fields_merge_correctly() {
    let mut t: MarketTick<f64> = MarketTick::new("nse_cm|Nifty 50");
    let mut f = frame();
    f.iv = Some(24850.25);
    f.ic = Some(24800.10);
    f.opening_price = Some(24810.00);
    f.high_price = Some(24890.00);
    f.low_price = Some(24780.00);
    t.merge_from(&f, 1_000);
    assert_eq!(t.ltp, Some(24850.25));
    assert_eq!(t.prev_close, Some(24800.10));
    assert_eq!(t.open, Some(24810.00));
    assert_eq!(t.high, Some(24890.00));
    assert_eq!(t.low, Some(24780.00));
}

#[test]
fn new_tick_knows_only_its_key() {
    let t: MarketTick<f64> = MarketTick::new("nse_fo|1");
    assert_eq!(t.key, "nse_fo|1");
    assert_eq!(t.ltp, None);
    assert_eq!(t.trading_symbol, None);
    assert_eq!(t.updated_at_ms, 0);
}

#[test]
fn second_key_of_a_field_wins_when_both_are_sent() {
    let mut t: MarketTick<f64> = MarketTick::new("k");
    let mut f = frame();
    f.ltp = Some(10.0);
    f.iv = Some(11.0);
    f.v = Some(5.0);
    f.vol = Some(6.0);
    t.merge_from(&f, 1);
    assert_eq!(t.ltp, Some(11.0));
    assert_eq!(t.volume, Some(6.0));
}

#[test]
fn feed_time_prefers_ltt_over_fdtm() {
    let mut t: MarketTick<f64> = MarketTick::new("k");
    let mut f = frame();
    f.ltt = Some("10:15:00".to_string());
    f.fdtm = Some("10:15:01".to_string());
    t.merge_from(&f, 1);
    assert_eq!(t.feed_time.as_deref(), Some("10:15:00"));

    let mut g = frame();
    g.fdtm = Some("10:16:00".to_string());
    t.merge_from(&g, 2);
    assert_eq!(t.feed_time.as_deref(), Some("10:16:00"));

    let mut h = frame();
    h.ts = Some("NIFTY25AUG24000CE".to_string());
    t.merge_from(&h, 3);
    assert_eq!(t.feed_time.as_deref(), Some("10:16:00"), "an absent time keeps the known one");
    assert_eq!(t.trading_symbol.as_deref(), Some("NIFTY25AUG24000CE"));
}

#[test]
fn merging_a_frame_twice_equals_merging_it_once() {
    let mut f = frame();
    f.ltp = Some(99.5);
    f.tbq = Some(1_000.0);
    f.ts = Some("X".to_string());
    let mut a: MarketTick<f64> = MarketTick::new("k");
    a.merge_from(&f, 7);
    let mut b = a.clone();
    b.merge_from(&f, 7);
    assert_eq!(a.ltp, b.ltp);
    assert_eq!(a.total_buy_qty, b.total_buy_qty);
    assert_eq!(a.trading_symbol, b.trading_symbol);
    assert_eq!(a.updated_at_ms, b.updated_at_ms);
}

#[test]
fn an_empty_frame_only_refreshes_the_clock() {
    let mut t: MarketTick<f64> = MarketTick::new("k");
    let mut f = frame();
    f.ltp = Some(3.0);
    f.oi = Some(4.0);
    t.merge_from(&f, 5);
    t.merge_from(&frame(), 9);
    assert_eq!(t.ltp, Some(3.0));
    assert_eq!(t.open_interest, Some(4.0));
    assert_eq!(t.updated_at_ms, 9);
}

#[test]
fn staleness_saturates_at_the_edges_of_the_clock() {
    let mut t: MarketTick<f64> = MarketTick::new("k");
    t.merge_from(&frame(), i64::MIN);
    // i64::MAX - i64::MIN overflows and saturates to i64::MAX.
    assert!(t.is_stale(i64::MAX, i64::MAX - 1));
    assert!(!t.is_stale(i64::MAX, i64::MAX));
    let mut u: MarketTick<f64> = MarketTick::new("k");
    u.merge_from(&frame(), i64::MAX);
    // A clock that went backwards yields a negative age, never stale.
    assert!(!u.is_stale(i64::MIN, 0));
    assert!(!u.is_stale(0, 0));
}

#[test]
fn a_tick_is_fresh_at_the_moment_of_its_merge() {
    let mut t: MarketTick<f64> = MarketTick::new("k");
    t.merge_from(&frame(), 60_000);
    assert!(!t.is_stale(60_000, 0));
    assert!(!t.is_stale(65_000, 5_000));
    assert!(t.is_stale(65_001, 5_000));
}

#[test]
fn feed_text_trims_and_drops_blank_values() {
    assert_eq!(feed_text("  NIFTY  ").as_deref(), Some("NIFTY"));
    assert_eq!(feed_text("\t10:15:00\r\n").as_deref(), Some("10:15:00"));
    assert_eq!(feed_text("   "), None);
    assert_eq!(feed_text(""), None);
    assert_eq!(feed_text("\u{3000}a b\u{a0}").as_deref(), Some("a b"));
    assert_eq!(feed_text("a"), Some("a".to_string()));
}

#[test]
fn feed_text_trims_exactly_what_str_trim_trims() {
    let spaces = [
        '\u{9}', '\u{a}', '\u{b}', '\u{c}', '\u{d}', ' ', '\u{85}', '\u{a0}', '\u{1680}', '\u{2000}',
        '\u{2005}', '\u{200a}', '\u{2028}', '\u{2029}', '\u{202f}', '\u{205f}', '\u{3000}',
    ];
    for c in spaces {
        let raw = format!("{c}x{c}y{c}");
        assert_eq!(feed_text(&raw).as_deref(), Some(raw.trim()));
        assert_eq!(feed_text(&c.to_string()), None);
    }
    // Not whitespace: zero-width space and the byte-order mark stay.
    for c in ['\u{200b}', '\u{feff}'] {
        let raw = format!("{c}x");
        assert_eq!(feed_text(&raw).as_deref(), Some(raw.trim()));
        assert_eq!(feed_text(&raw).as_deref(), Some(raw.as_str()));
    }
}

#[test]
fn blank_text_never_overwrites_a_known_value() {
    let mut t: MarketTick<f64> = MarketTick::new("k");
    let mut f = frame();
    f.ts = Some("  NIFTY ".to_string());
    f.ltt = Some(" 10:15:00".to_string());
    t.merge_from(&f, 1);
    assert_eq!(t.trading_symbol.as_deref(), Some("NIFTY"));
    assert_eq!(t.feed_time.as_deref(), Some("10:15:00"));

    let mut blank = frame();
    blank.ts = Some("   ".to_string());
    blank.ltt = Some("".to_string());
    t.merge_from(&blank, 2);
    assert_eq!(t.trading_symbol.as_deref(), Some("NIFTY"), "a blank symbol must not erase the known one");
    assert_eq!(t.feed_time.as_deref(), Some("10:15:00"));

    let mut fallback = frame();
    fallback.ltt = Some(" ".to_string());
    fallback.fdtm = Some("10:20:00 ".to_string());
    t.merge_from(&fallback, 3);
    assert_eq!(t.feed_time.as_deref(), Some("10:20:00"), "a blank ltt falls back to fdtm");
}
