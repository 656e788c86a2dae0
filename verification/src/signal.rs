//! The fixed parts of every signal the strategy synthesises.
use vstd::prelude::*;
use vstd::string::*;

verus! {

/// Whether `c` separates the parts of a timestamp (`' '`, `':'` or `'-'`).
pub open spec fn is_timestamp_separator(c: char) -> bool {
    c == ' ' || c == ':' || c == '-'
}

/// `s` with every timestamp separator removed.
pub open spec fn without_separators(s: Seq<char>) -> Seq<char>
    decreases s.len(),
{
    if s.len() == 0 {
        Seq::empty()
    } else if is_timestamp_separator(s.last()) {
        without_separators(s.drop_last())
    } else {
        without_separators(s.drop_last()).push(s.last())
    }
}

/// The identifier of the signal generated for `symbol` at `evaluated_at`.
pub open spec fn signal_id_text(symbol: Seq<char>, evaluated_at: Seq<char>) -> Seq<char> {
    "algo-"@ + symbol + "-"@ + without_separators(evaluated_at)
}

/// `s` with every timestamp separator removed.
pub fn strip_separators(s: &str) -> (r: String)
    ensures
        r@ == without_separators(s@),
{
    let n: usize = s.unicode_len();
    let mut r = "".to_owned();
    proof {
        reveal_strlit("");
    }
    let mut i: usize = 0;
    assert(s@.subrange(0, 0).len() == 0);
    while i < n
        invariant
            n == s@.len(),
            i <= n,
            r@ == without_separators(s@.subrange(0, i as int)),
        decreases n - i,
    {
        let c = s.get_char(i);
        assert(s@.subrange(0, i + 1).drop_last() =~= s@.subrange(0, i as int));
        assert(s@.subrange(0, i + 1).last() == c);
        if !(c == ' ' || c == ':' || c == '-') {
            let one = s.substring_char(i, i + 1);
            assert(one@ =~= seq![c]);
            r.append(one);
            assert(r@ =~= without_separators(s@.subrange(0, i as int)).push(c));
        }
        i = i + 1;
    }
    assert(s@.subrange(0, n as int) =~= s@);
    r
}

/// The identifier of the signal generated for `symbol` at `evaluated_at`:
/// `algo-<symbol>-<evaluated_at without spaces, colons and dashes>`.
pub fn signal_id(symbol: &str, evaluated_at: &str) -> (id: String)
    ensures
        id@ == signal_id_text(symbol@, evaluated_at@),
{
    let mut id = "algo-".to_owned();
    id.append(symbol);
    id.append("-");
    let stamp = strip_separators(evaluated_at);
    id.append(stamp.as_str());
    id
}

/// The parts of an algo signal that never vary with the market.
#[derive(Clone, Debug)]
pub struct SignalTags {
    pub action: String,
    pub entry_condition: String,
    pub source: String,
    pub signal_id: String,
    pub paper_only: bool,
}

/// The fixed parts of the signal generated for `symbol` at `evaluated_at`.
///
/// Options are only ever bought, entered above the quoted level, and every
/// algo signal is marked paper-only, which the live entry path refuses.
pub fn signal_tags(symbol: &str, evaluated_at: &str) -> (t: SignalTags)
    ensures
        t.action@ == "BUY"@,
        t.entry_condition@ == "ABOVE"@,
        t.source@ == "algo"@,
        t.signal_id@ == signal_id_text(symbol@, evaluated_at@),
        t.paper_only,
{
    SignalTags {
        action: "BUY".to_owned(),
        entry_condition: "ABOVE".to_owned(),
        source: "algo".to_owned(),
        signal_id: signal_id(symbol, evaluated_at),
        paper_only: true,
    }
}

} // verus!

verus! {

/// Removing separators leaves no separator, keeps every other character in
/// order, and leaves a text without separators as it was.
pub proof fn separators_are_all_removed(s: Seq<char>)
    ensures
        forall|k: int|
            0 <= k < without_separators(s).len() ==> !is_timestamp_separator(
                #[trigger] without_separators(s)[k],
            ),
        without_separators(s).len() <= s.len(),
        (forall|k: int| 0 <= k < s.len() ==> !is_timestamp_separator(#[trigger] s[k]))
            ==> without_separators(s) == s,
    decreases s.len(),
{
    if s.len() > 0 {
        let init = s.drop_last();
        separators_are_all_removed(init);
        let r = without_separators(init);
        if (forall|k: int| 0 <= k < s.len() ==> !is_timestamp_separator(#[trigger] s[k])) {
            assert forall|k: int| 0 <= k < init.len() implies !is_timestamp_separator(
                #[trigger] init[k],
            ) by {
                assert(init[k] == s[k]);
            }
            assert(!is_timestamp_separator(s[s.len() - 1]));
            assert(without_separators(s) == r.push(s.last()));
            assert(r.push(s.last()) =~= s);
        }
        if !is_timestamp_separator(s.last()) {
            let w = r.push(s.last());
            assert forall|k: int| 0 <= k < w.len() implies !is_timestamp_separator(#[trigger] w[k]) by {
                if k < r.len() {
                    assert(w[k] == r[k]);
                }
            }
        }
    }
}

} // verus!
