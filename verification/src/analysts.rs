//! The analysts' rules that do not depend on prices: the warm-up guard both
//! apply before reading any bar, and how the order-flow analyst routes an
//! option contract's open interest to one side of the chain.
use vstd::prelude::*;
use vstd::string::*;

use crate::market::{stale_at, MarketTick};
use crate::text::{decimal, decimal_text};

verus! {

/// The technical analyst: price action, momentum and structure of the
/// underlying index.
pub struct TechnicalAnalyst;

/// The order-flow analyst: volume, book pressure and option-chain positioning.
pub struct OrderFlowAnalyst;

/// The evidence an analyst gives while it has fewer bars than it needs.
pub open spec fn warmup_text(have: nat, need: nat) -> Seq<char> {
    "warming up — "@ + decimal_text(have) + " of "@ + decimal_text(need) + " bars"@
}

fn warmup_note(have: u64, need: u64) -> (note: Option<String>)
    ensures
        note is Some <==> have < need,
        note matches Some(s) ==> s@ == warmup_text(have as nat, need as nat),
{
    if have < need {
        let mut s = "warming up — ".to_owned();
        let h = decimal(have);
        s.append(h.as_str());
        s.append(" of ");
        let n = decimal(need);
        s.append(n.as_str());
        s.append(" bars");
        Some(s)
    } else {
        None
    }
}

/// The side of the chain an option contract's open interest counts toward.
#[derive(Clone, Copy, Debug, PartialEq, Eq, Structural)]
pub enum OptionSide {
    Call,
    Put,
}

pub open spec fn option_side_of(opt_type: Seq<char>) -> Option<OptionSide> {
    if opt_type == "CE"@ {
        Some(OptionSide::Call)
    } else if opt_type == "PE"@ {
        Some(OptionSide::Put)
    } else {
        None
    }
}

fn option_side(opt_type: &str) -> (s: Option<OptionSide>)
    ensures
        s == option_side_of(opt_type@),
{
    let t = opt_type.to_owned();
    if t == "CE".to_owned() {
        Some(OptionSide::Call)
    } else if t == "PE".to_owned() {
        Some(OptionSide::Put)
    } else {
        None
    }
}

impl TechnicalAnalyst {
    /// The warm-up guard: with fewer than `need` closed bars the analyst
    /// abstains, and its evidence says how far along the warm-up is.
    pub fn warmup_note(have: u64, need: u64) -> (note: Option<String>)
        ensures
            note is Some <==> have < need,
            note matches Some(s) ==> s@ == warmup_text(have as nat, need as nat),
    {
        warmup_note(have, need)
    }
}

impl OrderFlowAnalyst {
    /// The warm-up guard: with fewer than `need` closed bars the analyst
    /// abstains, and its evidence says how far along the warm-up is.
    pub fn warmup_note(have: u64, need: u64) -> (note: Option<String>)
        ensures
            note is Some <==> have < need,
            note matches Some(s) ==> s@ == warmup_text(have as nat, need as nat),
    {
        warmup_note(have, need)
    }

    /// Route a contract by its option type: `CE` counts toward call open
    /// interest, `PE` toward put open interest, and any other type toward
    /// neither.
    pub fn option_side(opt_type: &str) -> (s: Option<OptionSide>)
        ensures
            s == option_side_of(opt_type@),
    {
        option_side(opt_type)
    }

    /// What one contract adds to the chain's open interest: its open
    /// interest, on the side its option type routes to. A contract with no
    /// tick, a stale tick, no open interest, or a type other than `CE`/`PE`
    /// contributes nothing.
    pub fn chain_contribution<N: Copy>(
        tick: Option<&MarketTick<N>>,
        opt_type: &str,
        now_ms: i64,
        max_age_ms: i64,
    ) -> (c: Option<(OptionSide, N)>)
        ensures
            c == (match tick {
                Some(t) => if !stale_at(t.updated_at_ms, now_ms, max_age_ms) && t.open_interest is Some
                    && option_side_of(opt_type@) is Some {
                    Some((option_side_of(opt_type@)->0, t.open_interest->0))
                } else {
                    None
                },
                None => None,
            }),
    {
        let t = match tick {
            Some(t) => t,
            None => return None,
        };
        if t.is_stale(now_ms, max_age_ms) {
            return None;
        }
        let oi = match t.open_interest {
            Some(oi) => oi,
            None => return None,
        };
        match option_side(opt_type) {
            Some(side) => Some((side, oi)),
            None => None,
        }
    }
}

} // verus!

verus! {

/// Only the exact types `CE` and `PE` route open interest, to the call and
/// the put side respectively; every other type routes nowhere.
pub proof fn only_ce_and_pe_route(opt_type: Seq<char>)
    ensures
        option_side_of(opt_type) == Some(OptionSide::Call) <==> opt_type == "CE"@,
        option_side_of(opt_type) == Some(OptionSide::Put) <==> opt_type == "PE"@,
        option_side_of(opt_type) is None <==> (opt_type != "CE"@ && opt_type != "PE"@),
{
    reveal_strlit("CE");
    reveal_strlit("PE");
    assert("CE"@[0] != "PE"@[0]);
}

} // verus!
