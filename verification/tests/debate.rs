use trading_engine::debate::{
    join_names, regime_agent_view, regime_allowed, DebateCoordinator, MarketRegime, Stance, SummaryKind, Verdict,
};

#[test]
fn the_higher_score_leads_and_a_tie_leads_nowhere() {
    assert_eq!(DebateCoordinator::leading_side(true, false), Stance::Bullish);
    assert_eq!(DebateCoordinator::leading_side(false, true), Stance::Bearish);
    assert_eq!(DebateCoordinator::leading_side(false, false), Stance::Neutral);
}

#[test]
fn settling_names_the_first_failed_test() {
    let v = DebateCoordinator::settle(Stance::Bullish, true, true);
    assert_eq!(v, Verdict { stance: Stance::Bullish, actionable: true, summary: SummaryKind::Actionable });
    let v = DebateCoordinator::settle(Stance::Neutral, true, true);
    assert!(!v.actionable);
    assert_eq!(v.summary, SummaryKind::NoConsensus);
    let v = DebateCoordinator::settle(Stance::Bearish, false, false);
    assert!(!v.actionable);
    assert_eq!(v.summary, SummaryKind::BelowThreshold);
    let v = DebateCoordinator::settle(Stance::Bearish, true, false);
    assert!(!v.actionable);
    assert_eq!(v.summary, SummaryKind::TooClose);
}

#[test]
fn an_empty_room_stands_down() {
    let v = DebateCoordinator::stand_down();
    assert!(!v.actionable);
    assert_eq!(v.stance, Stance::Neutral);
    assert_eq!(v.summary, SummaryKind::NoParticipants);
}

#[test]
fn abstainers_are_listed_in_order() {
    let votes = vec![
        ("Tech".to_string(), Stance::Bullish),
        ("Flow".to_string(), Stance::Neutral),
        ("Regime".to_string(), Stance::Neutral),
    ];
    let names = DebateCoordinator::abstaining_agents(&votes);
    assert_eq!(names, vec!["Flow".to_string(), "Regime".to_string()]);
    assert_eq!(DebateCoordinator::abstention_note(&names), " (Flow, Regime abstained)");
    assert_eq!(DebateCoordinator::abstention_note(&Vec::new()), "");
}

#[test]
fn names_join_with_the_separator_between_them() {
    assert_eq!(join_names(&vec![], ", "), "");
    assert_eq!(join_names(&vec!["A".to_string()], ", "), "A");
    assert_eq!(join_names(&vec!["A".to_string(), "B".to_string(), "C".to_string()], "/"), "A/B/C");
}

#[test]
fn trends_vote_their_direction_and_other_regimes_abstain() {
    let why = "ribbon fanned, ATR above median".to_string();
    let up = regime_agent_view(MarketRegime::TrendingUp, &why);
    assert_eq!(up.agent, "RegimeAnalyst");
    assert_eq!(up.stance, Stance::Bullish);
    assert!(up.scaled_confidence);
    assert_eq!(up.evidence, vec![why.clone()]);
    let down = regime_agent_view(MarketRegime::TrendingDown, &why);
    assert_eq!(down.stance, Stance::Bearish);
    for r in [MarketRegime::Rangebound, MarketRegime::Volatile, MarketRegime::Extended, MarketRegime::Unknown] {
        let v = regime_agent_view(r, &why);
        assert_eq!(v.stance, Stance::Neutral);
        assert!(!v.scaled_confidence);
        assert_eq!(v.evidence, vec![why.clone()]);
    }
}

#[test]
fn allow_rangebound_entry_permits_rangebound_regime() {
    assert!(!regime_allowed(false, false, MarketRegime::Rangebound));
    assert!(regime_allowed(false, true, MarketRegime::Rangebound));
    assert!(!regime_allowed(false, true, MarketRegime::Volatile));
    assert!(regime_allowed(true, false, MarketRegime::TrendingUp));
}
