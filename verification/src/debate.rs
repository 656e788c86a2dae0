//! The decision rules of the bull-versus-bear debate, and the regime
//! analyst's vote.
//!
//! Scores are weighted sums computed by the caller; this module decides, from
//! how those scores compare, which side leads, whether the round is
//! actionable, which summary it earns, and who abstained.
use vstd::prelude::*;
use vstd::string::*;

verus! {

/// The side an analyst, or the whole debate, takes.
#[derive(Clone, Copy, Debug, PartialEq, Eq, Structural)]
pub enum Stance {
    Bullish,
    Bearish,
    Neutral,
}

/// Which summary a debate round earns.
#[derive(Clone, Copy, Debug, PartialEq, Eq, Structural)]
pub enum SummaryKind {
    /// No agent carried any weight: the room stands down.
    NoParticipants,
    /// The leader cleared both the conviction threshold and the margin.
    Actionable,
    /// Bull and bear scores tied: no direction.
    NoConsensus,
    /// A side leads but is short of the conviction threshold.
    BelowThreshold,
    /// A side leads and clears the threshold, but not by the minimum margin.
    TooClose,
}

/// The outcome of one debate round, apart from its scores.
#[derive(Clone, Copy, Debug, PartialEq, Eq, Structural)]
pub struct Verdict {
    pub stance: Stance,
    pub actionable: bool,
    pub summary: SummaryKind,
}

/// The side with the strictly higher score leads; a tie leads nowhere.
pub open spec fn leader(bull_beats_bear: bool, bear_beats_bull: bool) -> Stance {
    if bull_beats_bear {
        Stance::Bullish
    } else if bear_beats_bull {
        Stance::Bearish
    } else {
        Stance::Neutral
    }
}

/// A round is actionable only when a side leads, its score clears the
/// conviction threshold, and it beats the other side by the minimum margin.
/// The summary names the first of these that fails.
pub open spec fn verdict_of(stance: Stance, clears_threshold: bool, clears_margin: bool) -> Verdict {
    let actionable = stance != Stance::Neutral && clears_threshold && clears_margin;
    Verdict {
        stance,
        actionable,
        summary: if actionable {
            SummaryKind::Actionable
        } else if stance == Stance::Neutral {
            SummaryKind::NoConsensus
        } else if !clears_threshold {
            SummaryKind::BelowThreshold
        } else {
            SummaryKind::TooClose
        },
    }
}

/// No round trades without a direction, a cleared threshold and a cleared
/// margin; and a round that trades points the way its leader does.
pub proof fn actionable_needs_every_test(
    bull_beats_bear: bool,
    bear_beats_bull: bool,
    clears_threshold: bool,
    clears_margin: bool,
)
    ensures
        ({
            let v = verdict_of(leader(bull_beats_bear, bear_beats_bull), clears_threshold, clears_margin);
            &&& v.actionable ==> clears_threshold && clears_margin
            &&& v.actionable ==> (bull_beats_bear || bear_beats_bull)
            &&& v.actionable <==> v.summary == SummaryKind::Actionable
            &&& (!bull_beats_bear && !bear_beats_bull) ==> v.summary == SummaryKind::NoConsensus
        }),
{
}

/// The names of the agents whose vote was neutral, in order.
pub open spec fn abstainers(votes: Seq<(Seq<char>, Stance)>) -> Seq<Seq<char>>
    decreases votes.len(),
{
    if votes.len() == 0 {
        Seq::empty()
    } else {
        let rest = abstainers(votes.drop_last());
        if votes.last().1 == Stance::Neutral {
            rest.push(votes.last().0)
        } else {
            rest
        }
    }
}

/// `parts` joined with `sep` between consecutive parts.
pub open spec fn joined(parts: Seq<Seq<char>>, sep: Seq<char>) -> Seq<char>
    decreases parts.len(),
{
    if parts.len() == 0 {
        Seq::empty()
    } else if parts.len() == 1 {
        parts[0]
    } else {
        joined(parts.drop_last(), sep) + sep + parts.last()
    }
}

/// The note a below-threshold summary ends with: empty when nobody abstained,
/// otherwise ` (<names joined by ", "> abstained)`.
pub open spec fn abstention_note_of(names: Seq<Seq<char>>) -> Seq<char> {
    if names.len() == 0 {
        Seq::empty()
    } else {
        " ("@ + joined(names, ", "@) + " abstained)"@
    }
}

pub open spec fn vote_texts(votes: Seq<(String, Stance)>) -> Seq<(Seq<char>, Stance)> {
    votes.map_values(|v: (String, Stance)| (v.0@, v.1))
}

pub open spec fn texts(names: Seq<String>) -> Seq<Seq<char>> {
    names.map_values(|n: String| n@)
}

/// `names` joined with `sep` between consecutive names.
pub fn join_names(names: &Vec<String>, sep: &str) -> (s: String)
    ensures
        s@ == joined(texts(names@), sep@),
{
    let ghost nt = texts(names@);
    let mut s = "".to_owned();
    let mut i: usize = 0;
    assert(nt.subrange(0, 0).len() == 0);
    assert(s@ =~= joined(nt.subrange(0, 0), sep@)) by {
        reveal_strlit("");
    }
    while i < names.len()
        invariant
            i <= names@.len(),
            nt == texts(names@),
            s@ == joined(nt.subrange(0, i as int), sep@),
        decreases names@.len() - i,
    {
        assert(nt.subrange(0, i + 1).drop_last() =~= nt.subrange(0, i as int));
        assert(nt.subrange(0, i + 1).last() == names@[i as int]@);
        if i == 0 {
            s.append(names[i].as_str());
            assert(s@ =~= joined(nt.subrange(0, 1), sep@)) by {
                reveal_strlit("");
                assert(nt.subrange(0, 1)[0] == names@[0]@);
            }
        } else {
            s.append(sep);
            s.append(names[i].as_str());
        }
        i = i + 1;
    }
    assert(nt.subrange(0, i as int) =~= nt);
    s
}

/// Runs the bull-versus-bear debate over the analysts' views.
pub struct DebateCoordinator;

impl DebateCoordinator {
    /// The side that leads, given how the bull score compares with the bear score.
    pub fn leading_side(bull_beats_bear: bool, bear_beats_bull: bool) -> (s: Stance)
        requires
            !(bull_beats_bear && bear_beats_bull),
        ensures
            s == leader(bull_beats_bear, bear_beats_bull),
    {
        if bull_beats_bear {
            Stance::Bullish
        } else if bear_beats_bull {
            Stance::Bearish
        } else {
            Stance::Neutral
        }
    }

    /// Settle a round whose leading side is `stance`, given whether the
    /// leader's score clears the conviction threshold and whether its lead over
    /// the other side clears the minimum margin.
    pub fn settle(stance: Stance, clears_threshold: bool, clears_margin: bool) -> (v: Verdict)
        ensures
            v == verdict_of(stance, clears_threshold, clears_margin),
    {
        let actionable = stance != Stance::Neutral && clears_threshold && clears_margin;
        let summary = if actionable {
            SummaryKind::Actionable
        } else if stance == Stance::Neutral {
            SummaryKind::NoConsensus
        } else if !clears_threshold {
            SummaryKind::BelowThreshold
        } else {
            SummaryKind::TooClose
        };
        Verdict { stance, actionable, summary }
    }

    /// The verdict of a room in which nobody participated.
    pub fn stand_down() -> (v: Verdict)
        ensures
            v == (Verdict {
                stance: Stance::Neutral,
                actionable: false,
                summary: SummaryKind::NoParticipants,
            }),
    {
        Verdict { stance: Stance::Neutral, actionable: false, summary: SummaryKind::NoParticipants }
    }

    /// The agents, among `votes`, that abstained (voted neutral), in order.
    pub fn abstaining_agents(votes: &[(String, Stance)]) -> (names: Vec<String>)
        ensures
            texts(names@) == abstainers(vote_texts(votes@)),
    {
        let ghost vt = vote_texts(votes@);
        let mut names: Vec<String> = Vec::new();
        let mut i: usize = 0;
        while i < votes.len()
            invariant
                i <= votes@.len(),
                vt == vote_texts(votes@),
                texts(names@) == abstainers(vt.subrange(0, i as int)),
            decreases votes@.len() - i,
        {
            assert(vt.subrange(0, i + 1).drop_last() =~= vt.subrange(0, i as int));
            assert(vt.subrange(0, i + 1).last() == vt[i as int]);
            if votes[i].1 == Stance::Neutral {
                names.push(votes[i].0.clone());
                assert(texts(names@) =~= texts(names@.drop_last()).push(votes@[i as int].0@));
            }
            i = i + 1;
        }
        assert(vt.subrange(0, i as int) =~= vt);
        names
    }

    /// The note naming the abstainers that a below-threshold summary ends with.
    pub fn abstention_note(names: &Vec<String>) -> (s: String)
        ensures
            s@ == abstention_note_of(texts(names@)),
    {
        if names.len() == 0 {
            let s = "".to_owned();
            proof {
                reveal_strlit("");
            }
            s
        } else {
            let mut s = " (".to_owned();
            let j = join_names(names, ", ");
            s.append(j.as_str());
            s.append(" abstained)");
            s
        }
    }
}

/// The market regime, as the regime classifier reports it.
#[derive(Clone, Copy, Debug, PartialEq, Eq, Structural)]
pub enum MarketRegime {
    TrendingUp,
    TrendingDown,
    Rangebound,
    Volatile,
    Extended,
    Unknown,
}

/// Whether the regime permits a long-premium entry: either the regime allows
/// entry by itself, or the configuration allows entries in a rangebound
/// market and the market is rangebound.
pub fn regime_allowed(allows_entry: bool, allow_rangebound: bool, r: MarketRegime) -> (b: bool)
    ensures
        b == (allows_entry || (allow_rangebound && r == MarketRegime::Rangebound)),
{
    allows_entry || (allow_rangebound && r == MarketRegime::Rangebound)
}

/// The regime analyst's vote, apart from its numeric weight and confidence.
#[derive(Clone, Debug)]
pub struct RegimeVote {
    pub agent: String,
    pub stance: Stance,
    pub evidence: Vec<String>,
    /// True when the vote takes a side, and so its confidence grows with the
    /// ATR percentile; false when it abstains with no confidence.
    pub scaled_confidence: bool,
}

pub open spec fn regime_stance(regime: MarketRegime) -> Stance {
    match regime {
        MarketRegime::TrendingUp => Stance::Bullish,
        MarketRegime::TrendingDown => Stance::Bearish,
        _ => Stance::Neutral,
    }
}

/// The regime analyst's vote, derived from the classification.
///
/// A trend votes its direction; every other regime abstains and leaves the
/// blocking to the regime guard. The classifier's rationale is the evidence.
pub fn regime_agent_view(regime: MarketRegime, rationale: &String) -> (v: RegimeVote)
    ensures
        v.agent@ == "RegimeAnalyst"@,
        v.stance == regime_stance(regime),
        v.scaled_confidence == (v.stance != Stance::Neutral),
        v.evidence@.len() == 1,
        v.evidence@[0]@ == rationale@,
{
    let stance = match regime {
        MarketRegime::TrendingUp => Stance::Bullish,
        MarketRegime::TrendingDown => Stance::Bearish,
        _ => Stance::Neutral,
    };
    let mut evidence: Vec<String> = Vec::new();
    evidence.push(rationale.clone());
    RegimeVote {
        agent: "RegimeAnalyst".to_owned(),
        stance,
        evidence,
        scaled_confidence: stance != Stance::Neutral,
    }
}

} // verus!

verus! {

/// How a round settles, in terms of its tests: it keeps the leader's side;
/// it is actionable exactly when a side leads and clears both the threshold
/// and the margin; and its summary names the first test that failed.
pub proof fn verdict_follows_its_tests(stance: Stance, clears_threshold: bool, clears_margin: bool)
    ensures
        ({
            let v = verdict_of(stance, clears_threshold, clears_margin);
            &&& v.stance == stance
            &&& v.actionable <==> (stance != Stance::Neutral && clears_threshold && clears_margin)
            &&& v.summary == SummaryKind::Actionable <==> v.actionable
            &&& v.summary == SummaryKind::NoConsensus <==> stance == Stance::Neutral
            &&& v.summary == SummaryKind::BelowThreshold <==> (stance != Stance::Neutral
                && !clears_threshold)
            &&& v.summary == SummaryKind::TooClose <==> (stance != Stance::Neutral
                && clears_threshold && !clears_margin)
            &&& v.summary != SummaryKind::NoParticipants
        }),
{
}

/// The side with the strictly higher score leads, and only a tie leaves the
/// debate without a direction.
pub proof fn leader_is_the_higher_side(bull_beats_bear: bool, bear_beats_bull: bool)
    requires
        !(bull_beats_bear && bear_beats_bull),
    ensures
        leader(bull_beats_bear, bear_beats_bull) == Stance::Bullish <==> bull_beats_bear,
        leader(bull_beats_bear, bear_beats_bull) == Stance::Bearish <==> bear_beats_bull,
        leader(bull_beats_bear, bear_beats_bull) == Stance::Neutral <==> (!bull_beats_bear
            && !bear_beats_bull),
{
}

/// Only a trending regime votes, and it votes its own direction.
pub proof fn regime_votes_its_trend(r: MarketRegime)
    ensures
        regime_stance(r) == Stance::Bullish <==> r == MarketRegime::TrendingUp,
        regime_stance(r) == Stance::Bearish <==> r == MarketRegime::TrendingDown,
{
}

} // verus!

verus! {

/// Whether `name` is the name on some neutral vote.
pub open spec fn voted_neutral(votes: Seq<(Seq<char>, Stance)>, name: Seq<char>) -> bool {
    exists|i: int| #![trigger votes[i]] 0 <= i < votes.len() && votes[i].1 == Stance::Neutral && votes[i].0 == name
}

/// The abstainers are exactly the agents that voted neutral: every name
/// listed voted neutral, and every neutral voter is listed, in vote order.
pub proof fn abstainers_are_the_neutral_voters(votes: Seq<(Seq<char>, Stance)>)
    ensures
        abstainers(votes).len() <= votes.len(),
        forall|j: int|
            0 <= j < abstainers(votes).len() ==> voted_neutral(votes, #[trigger] abstainers(votes)[j]),
        forall|i: int|
            0 <= i < votes.len() && (#[trigger] votes[i]).1 == Stance::Neutral ==> abstainers(
                votes,
            ).contains(votes[i].0),
    decreases votes.len(),
{
    if votes.len() > 0 {
        let init = votes.drop_last();
        abstainers_are_the_neutral_voters(init);
        let a = abstainers(votes);
        let r = abstainers(init);
        assert forall|j: int| 0 <= j < a.len() implies voted_neutral(votes, #[trigger] a[j]) by {
            if j < r.len() {
                assert(a[j] == r[j]);
                assert(voted_neutral(init, r[j]));
                let i = choose|i: int|
                    #![trigger init[i]]
                    0 <= i < init.len() && init[i].1 == Stance::Neutral && init[i].0 == r[j];
                assert(votes[i] == init[i]);
            } else {
                let last = votes.len() - 1;
                assert(votes[last] == votes.last());
                assert(votes.last().1 == Stance::Neutral);
                assert(a[j] == votes[last].0);
            }
        }
        assert forall|i: int|
            0 <= i < votes.len() && (#[trigger] votes[i]).1 == Stance::Neutral implies a.contains(
            votes[i].0,
        ) by {
            if i < votes.len() - 1 {
                assert(init[i] == votes[i]);
                assert(r.contains(init[i].0));
                let w = choose|w: int| 0 <= w < r.len() && r[w] == init[i].0;
                assert(a[w] == r[w]);
            } else {
                assert(a[a.len() - 1] == votes.last().0);
            }
        }
    }
}

} // verus!
