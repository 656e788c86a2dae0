//! The rules a strategy configuration must satisfy before the engine may use
//! it.
//!
//! A configuration is checked whenever it is loaded or changed, and the first
//! rule it breaks is reported. The rules on counts and periods are decided
//! here from the settings themselves; for the rules on prices, fractions and
//! thresholds the caller supplies whether each one failed, and this module
//! decides which failure, if any, is reported.
use vstd::prelude::*;
use vstd::string::*;

verus! {

/// The count and period settings the rules read.
#[derive(Clone, Copy, Debug)]
pub struct CountSettings {
    pub min_bars_for_signal: usize,
    pub series_capacity: usize,
    pub ema_fast: usize,
    pub ema_medium: usize,
    pub ema_slow: usize,
    pub max_open_positions: usize,
    pub max_algo_entries_per_day: usize,
    /// How many indices are configured.
    pub index_count: usize,
}

/// For each rule on a numeric threshold, whether the configuration breaks it.
#[derive(Clone, Copy, Debug)]
pub struct ThresholdFailures {
    /// `conviction_threshold` is not within `0..=100`.
    pub conviction_out_of_range: bool,
    /// `stop_loss_pct <= 0` or `stop_loss_pct >= 1`.
    pub stop_out_of_range: bool,
    /// `target_1_pct <= 0` or `target_2_pct <= target_1_pct`.
    pub targets_unordered: bool,
    /// `min_premium <= 0` or `max_premium <= min_premium`.
    pub premium_band_unordered: bool,
    /// `max_spread_pct <= 0`.
    pub spread_not_positive: bool,
    /// `max_daily_loss_inr <= 0`.
    pub daily_loss_not_positive: bool,
    /// `target_1_pct / stop_loss_pct < min_reward_risk`.
    pub reward_risk_too_thin: bool,
}

/// Whether a strategy is armed when it ships. Off until a human turns it on.
pub const SHIPPED_ENABLED: bool = false;

impl CountSettings {
    /// The count and period settings the strategy ships with.
    pub fn shipped() -> (c: Self)
        ensures
            c.min_bars_for_signal == 10,
            c.series_capacity == 900,
            c.ema_fast == 3,
            c.ema_medium == 6,
            c.ema_slow == 9,
            c.max_open_positions == 3,
            c.max_algo_entries_per_day == 4,
            c.index_count == 2,
    {
        CountSettings {
            min_bars_for_signal: 10,
            series_capacity: 900,
            ema_fast: 3,
            ema_medium: 6,
            ema_slow: 9,
            max_open_positions: 3,
            max_algo_entries_per_day: 4,
            index_count: 2,
        }
    }
}

/// The rule a configuration breaks.
#[derive(Clone, Copy, Debug, PartialEq, Eq, Structural)]
pub enum ConfigError {
    TooFewWarmupBars,
    CapacityBelowWarmup,
    EmaPeriodsUnordered,
    ConvictionOutOfRange,
    StopOutOfRange,
    TargetsUnordered,
    PremiumBandUnordered,
    SpreadNotPositive,
    DailyLossNotPositive,
    ZeroLimit,
    RewardRiskTooThin,
    NoIndices,
}

/// The first rule, in the order they are checked, that the settings break.
pub open spec fn first_broken_rule(c: CountSettings, t: ThresholdFailures) -> Option<ConfigError> {
    if c.min_bars_for_signal < 2 {
        Some(ConfigError::TooFewWarmupBars)
    } else if c.series_capacity < c.min_bars_for_signal {
        Some(ConfigError::CapacityBelowWarmup)
    } else if c.ema_fast >= c.ema_medium || c.ema_medium >= c.ema_slow {
        Some(ConfigError::EmaPeriodsUnordered)
    } else if t.conviction_out_of_range {
        Some(ConfigError::ConvictionOutOfRange)
    } else if t.stop_out_of_range {
        Some(ConfigError::StopOutOfRange)
    } else if t.targets_unordered {
        Some(ConfigError::TargetsUnordered)
    } else if t.premium_band_unordered {
        Some(ConfigError::PremiumBandUnordered)
    } else if t.spread_not_positive {
        Some(ConfigError::SpreadNotPositive)
    } else if t.daily_loss_not_positive {
        Some(ConfigError::DailyLossNotPositive)
    } else if c.max_open_positions == 0 || c.max_algo_entries_per_day == 0 {
        Some(ConfigError::ZeroLimit)
    } else if t.reward_risk_too_thin {
        Some(ConfigError::RewardRiskTooThin)
    } else if c.index_count == 0 {
        Some(ConfigError::NoIndices)
    } else {
        None
    }
}

/// Check a configuration against every rule, reporting the first one broken.
pub fn check_rules(counts: &CountSettings, failures: &ThresholdFailures) -> (r: Result<(), ConfigError>)
    ensures
        r matches Err(e) ==> first_broken_rule(*counts, *failures) == Some(e),
        r is Ok <==> first_broken_rule(*counts, *failures) is None,
{
    if counts.min_bars_for_signal < 2 {
        return Err(ConfigError::TooFewWarmupBars);
    }
    if counts.series_capacity < counts.min_bars_for_signal {
        return Err(ConfigError::CapacityBelowWarmup);
    }
    if counts.ema_fast >= counts.ema_medium || counts.ema_medium >= counts.ema_slow {
        return Err(ConfigError::EmaPeriodsUnordered);
    }
    if failures.conviction_out_of_range {
        return Err(ConfigError::ConvictionOutOfRange);
    }
    if failures.stop_out_of_range {
        return Err(ConfigError::StopOutOfRange);
    }
    if failures.targets_unordered {
        return Err(ConfigError::TargetsUnordered);
    }
    if failures.premium_band_unordered {
        return Err(ConfigError::PremiumBandUnordered);
    }
    if failures.spread_not_positive {
        return Err(ConfigError::SpreadNotPositive);
    }
    if failures.daily_loss_not_positive {
        return Err(ConfigError::DailyLossNotPositive);
    }
    if counts.max_open_positions == 0 || counts.max_algo_entries_per_day == 0 {
        return Err(ConfigError::ZeroLimit);
    }
    if failures.reward_risk_too_thin {
        return Err(ConfigError::RewardRiskTooThin);
    }
    if counts.index_count == 0 {
        return Err(ConfigError::NoIndices);
    }
    Ok(())
}

/// The fixed text that reports each broken rule; `None` for the reward:risk
/// rule, whose report quotes the configured numbers.
pub open spec fn rule_text(e: ConfigError) -> Option<Seq<char>> {
    match e {
        ConfigError::TooFewWarmupBars => Some("min_bars_for_signal must be at least 2"@),
        ConfigError::CapacityBelowWarmup => Some(
            "series_capacity must be at least min_bars_for_signal"@,
        ),
        ConfigError::EmaPeriodsUnordered => Some("EMA periods must satisfy fast < medium < slow"@),
        ConfigError::ConvictionOutOfRange => Some("conviction_threshold must be within 0..=100"@),
        ConfigError::StopOutOfRange => Some(
            "stop_loss_pct must be within (0, 1) — a stop at or below zero premium can never trigger"@,
        ),
        ConfigError::TargetsUnordered => Some(
            "targets must satisfy 0 < target_1_pct < target_2_pct"@,
        ),
        ConfigError::PremiumBandUnordered => Some(
            "premium band must satisfy 0 < min_premium < max_premium"@,
        ),
        ConfigError::SpreadNotPositive => Some("max_spread_pct must be positive"@),
        ConfigError::DailyLossNotPositive => Some("max_daily_loss_inr must be positive"@),
        ConfigError::ZeroLimit => Some(
            "position and entry limits must be at least 1 (use `enabled: false` to stop trading)"@,
        ),
        ConfigError::RewardRiskTooThin => None,
        ConfigError::NoIndices => Some("at least one index must be configured"@),
    }
}

impl ConfigError {
    /// The fixed report of this broken rule, when it has one.
    pub fn fixed_message(&self) -> (m: Option<String>)
        ensures
            m is Some <==> rule_text(*self) is Some,
            m matches Some(s) ==> rule_text(*self) == Some(s@),
    {
        match self {
            ConfigError::TooFewWarmupBars => Some(
                "min_bars_for_signal must be at least 2".to_owned(),
            ),
            ConfigError::CapacityBelowWarmup => Some(
                "series_capacity must be at least min_bars_for_signal".to_owned(),
            ),
            ConfigError::EmaPeriodsUnordered => Some(
                "EMA periods must satisfy fast < medium < slow".to_owned(),
            ),
            ConfigError::ConvictionOutOfRange => Some(
                "conviction_threshold must be within 0..=100".to_owned(),
            ),
            ConfigError::StopOutOfRange => Some(
                "stop_loss_pct must be within (0, 1) — a stop at or below zero premium can never trigger".to_owned(),
            ),
            ConfigError::TargetsUnordered => Some(
                "targets must satisfy 0 < target_1_pct < target_2_pct".to_owned(),
            ),
            ConfigError::PremiumBandUnordered => Some(
                "premium band must satisfy 0 < min_premium < max_premium".to_owned(),
            ),
            ConfigError::SpreadNotPositive => Some("max_spread_pct must be positive".to_owned()),
            ConfigError::DailyLossNotPositive => Some(
                "max_daily_loss_inr must be positive".to_owned(),
            ),
            ConfigError::ZeroLimit => Some(
                "position and entry limits must be at least 1 (use `enabled: false` to stop trading)".to_owned(),
            ),
            ConfigError::RewardRiskTooThin => None,
            ConfigError::NoIndices => Some("at least one index must be configured".to_owned()),
        }
    }
}

/// The shipped counts break no counting rule, and their warm-up covers the
/// slowest EMA period: with threshold settings that break no rule, the
/// shipped configuration is accepted.
pub proof fn shipped_counts_pass(t: ThresholdFailures)
    requires
        !t.conviction_out_of_range && !t.stop_out_of_range && !t.targets_unordered,
        !t.premium_band_unordered && !t.spread_not_positive && !t.daily_loss_not_positive,
        !t.reward_risk_too_thin,
    ensures
        ({
            let c = CountSettings {
                min_bars_for_signal: 10,
                series_capacity: 900,
                ema_fast: 3,
                ema_medium: 6,
                ema_slow: 9,
                max_open_positions: 3,
                max_algo_entries_per_day: 4,
                index_count: 2,
            };
            &&& first_broken_rule(c, t) is None
            &&& c.min_bars_for_signal >= c.ema_slow
        }),
        !SHIPPED_ENABLED,
{
}

/// A configuration that passes the rules warms up on at least two bars, keeps
/// at least that many, orders its EMA periods strictly, allows at least one
/// position and one entry, and watches at least one index; a zero limit is
/// never read as "unlimited".
pub proof fn accepted_configs_are_sane(c: CountSettings, t: ThresholdFailures)
    requires
        first_broken_rule(c, t) is None,
    ensures
        2 <= c.min_bars_for_signal <= c.series_capacity,
        c.ema_fast < c.ema_medium < c.ema_slow,
        c.max_open_positions >= 1,
        c.max_algo_entries_per_day >= 1,
        c.index_count >= 1,
        !t.conviction_out_of_range && !t.stop_out_of_range && !t.targets_unordered,
        !t.premium_band_unordered && !t.spread_not_positive && !t.daily_loss_not_positive,
        !t.reward_risk_too_thin,
{
}

} // verus!

verus! {

/// The rules accept a configuration exactly when it warms up on at least two
/// bars, keeps at least that many, orders its EMA periods strictly, allows
/// at least one position and one entry, watches at least one index, and
/// breaks no threshold rule.
pub proof fn accepted_exactly_when_sane(c: CountSettings, t: ThresholdFailures)
    ensures
        first_broken_rule(c, t) is None <==> ({
            &&& 2 <= c.min_bars_for_signal <= c.series_capacity
            &&& c.ema_fast < c.ema_medium < c.ema_slow
            &&& c.max_open_positions >= 1 && c.max_algo_entries_per_day >= 1
            &&& c.index_count >= 1
            &&& !t.conviction_out_of_range && !t.stop_out_of_range && !t.targets_unordered
            &&& !t.premium_band_unordered && !t.spread_not_positive && !t.daily_loss_not_positive
            &&& !t.reward_risk_too_thin
        }),
{
}

/// A reported rule is one the configuration breaks, and every rule checked
/// before it holds.
pub proof fn reported_rule_is_broken(c: CountSettings, t: ThresholdFailures)
    ensures
        first_broken_rule(c, t) == Some(ConfigError::TooFewWarmupBars) <==> c.min_bars_for_signal < 2,
        first_broken_rule(c, t) == Some(ConfigError::CapacityBelowWarmup) <==> (c.min_bars_for_signal
            >= 2 && c.series_capacity < c.min_bars_for_signal),
        first_broken_rule(c, t) == Some(ConfigError::EmaPeriodsUnordered) ==> !(c.ema_fast
            < c.ema_medium < c.ema_slow),
        first_broken_rule(c, t) == Some(ConfigError::ConvictionOutOfRange) ==> t.conviction_out_of_range,
        first_broken_rule(c, t) == Some(ConfigError::StopOutOfRange) ==> t.stop_out_of_range,
        first_broken_rule(c, t) == Some(ConfigError::TargetsUnordered) ==> t.targets_unordered,
        first_broken_rule(c, t) == Some(ConfigError::PremiumBandUnordered) ==> t.premium_band_unordered,
        first_broken_rule(c, t) == Some(ConfigError::SpreadNotPositive) ==> t.spread_not_positive,
        first_broken_rule(c, t) == Some(ConfigError::DailyLossNotPositive)
            ==> t.daily_loss_not_positive,
        first_broken_rule(c, t) == Some(ConfigError::ZeroLimit) ==> (c.max_open_positions == 0
            || c.max_algo_entries_per_day == 0),
        first_broken_rule(c, t) == Some(ConfigError::RewardRiskTooThin) ==> t.reward_risk_too_thin,
        first_broken_rule(c, t) == Some(ConfigError::NoIndices) ==> c.index_count == 0,
{
}

} // verus!
