use trading_engine::config::{check_rules, ConfigError, CountSettings, ThresholdFailures, SHIPPED_ENABLED};

/// The count settings of the shipped default configuration.
fn default_counts() -> CountSettings {
    CountSettings::shipped()
}

fn no_failures() -> ThresholdFailures {
    ThresholdFailures {
        conviction_out_of_range: false,
        stop_out_of_range: false,
        targets_unordered: false,
        premium_band_unordered: false,
        spread_not_positive: false,
        daily_loss_not_positive: false,
        reward_risk_too_thin: false,
    }
}

#[test]
fn rejects_inverted_ema_periods() {
    let mut c = default_counts();
    c.ema_fast = 50;
    c.ema_slow = 9;
    assert!(check_rules(&c, &no_failures()).is_err());
}

#[test]
fn rejects_zero_limits_rather_than_treating_them_as_unlimited() {
    let mut c = default_counts();
    c.max_open_positions = 0;
    assert!(check_rules(&c, &no_failures()).is_err(), "0 must not silently mean 'no limit'");
}

#[test]
fn default_min_bars_for_signal_covers_ema_slow() {
    let c = CountSettings::shipped();
    assert_eq!(c.min_bars_for_signal, 10);
    assert!(c.min_bars_for_signal >= c.ema_slow);
}

#[test]
fn the_shipped_strategy_starts_disabled_with_valid_counts() {
    assert!(!SHIPPED_ENABLED, "the strategy must never arm itself by default");
    assert_eq!(check_rules(&CountSettings::shipped(), &no_failures()), Ok(()));
}

#[test]
fn default_counts_pass_the_rules() {
    assert_eq!(check_rules(&default_counts(), &no_failures()), Ok(()));
}

#[test]
fn each_broken_rule_is_reported() {
    let f = no_failures();
    let mut c = default_counts();
    c.min_bars_for_signal = 1;
    assert_eq!(check_rules(&c, &f), Err(ConfigError::TooFewWarmupBars));
    let mut c = default_counts();
    c.series_capacity = 9;
    assert_eq!(check_rules(&c, &f), Err(ConfigError::CapacityBelowWarmup));
    let mut c = default_counts();
    c.ema_medium = 3;
    assert_eq!(check_rules(&c, &f), Err(ConfigError::EmaPeriodsUnordered));
    let mut c = default_counts();
    c.max_algo_entries_per_day = 0;
    assert_eq!(check_rules(&c, &f), Err(ConfigError::ZeroLimit));
    let mut c = default_counts();
    c.index_count = 0;
    assert_eq!(check_rules(&c, &f), Err(ConfigError::NoIndices));

    let c = default_counts();
    let cases = [
        (ThresholdFailures { conviction_out_of_range: true, ..f }, ConfigError::ConvictionOutOfRange),
        (ThresholdFailures { stop_out_of_range: true, ..f }, ConfigError::StopOutOfRange),
        (ThresholdFailures { targets_unordered: true, ..f }, ConfigError::TargetsUnordered),
        (ThresholdFailures { premium_band_unordered: true, ..f }, ConfigError::PremiumBandUnordered),
        (ThresholdFailures { spread_not_positive: true, ..f }, ConfigError::SpreadNotPositive),
        (ThresholdFailures { daily_loss_not_positive: true, ..f }, ConfigError::DailyLossNotPositive),
        (ThresholdFailures { reward_risk_too_thin: true, ..f }, ConfigError::RewardRiskTooThin),
    ];
    for (failures, expected) in cases {
        assert_eq!(check_rules(&c, &failures), Err(expected));
    }
}

#[test]
fn the_first_broken_rule_wins() {
    let mut c = default_counts();
    c.min_bars_for_signal = 0;
    c.index_count = 0;
    let all = ThresholdFailures {
        conviction_out_of_range: true,
        stop_out_of_range: true,
        targets_unordered: true,
        premium_band_unordered: true,
        spread_not_positive: true,
        daily_loss_not_positive: true,
        reward_risk_too_thin: true,
    };
    assert_eq!(check_rules(&c, &all), Err(ConfigError::TooFewWarmupBars));
    let mut c = default_counts();
    c.max_open_positions = 0;
    assert_eq!(
        check_rules(&c, &ThresholdFailures { reward_risk_too_thin: true, ..no_failures() }),
        Err(ConfigError::ZeroLimit),
        "the limit rule is checked before the reward:risk rule"
    );
}

#[test]
fn broken_rules_carry_their_report() {
    assert_eq!(
        ConfigError::TooFewWarmupBars.fixed_message().as_deref(),
        Some("min_bars_for_signal must be at least 2")
    );
    assert_eq!(
        ConfigError::StopOutOfRange.fixed_message().as_deref(),
        Some("stop_loss_pct must be within (0, 1) — a stop at or below zero premium can never trigger")
    );
    assert_eq!(
        ConfigError::ZeroLimit.fixed_message().as_deref(),
        Some("position and entry limits must be at least 1 (use `enabled: false` to stop trading)")
    );
    assert_eq!(ConfigError::RewardRiskTooThin.fixed_message(), None);
    assert_eq!(
        ConfigError::NoIndices.fixed_message().as_deref(),
        Some("at least one index must be configured")
    );
}
