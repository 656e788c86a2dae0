//! Full market-data tick model, accumulated across incremental feed frames.
//!
//! The HSM feed is incremental: after the first snapshot for a scrip, later
//! frames carry only what changed. Every field of [`MarketTick`] is therefore
//! optional, and [`MarketTick::merge_from`] overwrites only what the incoming
//! frame actually carried; blank text counts as not carried. The numeric representation `N` of prices and
//! quantities is left to the caller; merging never inspects a number, it only
//! moves it.
use vstd::prelude::*;
use vstd::string::*;

use crate::text::{feed_trim, trim_ws};

verus! {

/// One instrument's latest known market state.
///
/// A field is `None` only when the feed has never sent it for this scrip.
#[derive(Clone, Debug)]
pub struct MarketTick<N> {
    /// Feed key, `"<exchange_segment>|<token>"`.
    pub key: String,
    /// Trading symbol (`ts`).
    pub trading_symbol: Option<String>,
    /// Last traded price (`ltp`, or `iv` on index feeds).
    pub ltp: Option<N>,
    /// Last traded quantity (`ltq`).
    pub last_traded_qty: Option<N>,
    /// Best bid price (`bp`).
    pub bid: Option<N>,
    /// Best ask price (`sp`).
    pub ask: Option<N>,
    /// Best bid quantity (`bq`).
    pub bid_qty: Option<N>,
    /// Best ask quantity (`bs`).
    pub ask_qty: Option<N>,
    /// Total buy quantity across the book (`tbq`).
    pub total_buy_qty: Option<N>,
    /// Total sell quantity across the book (`tsq`).
    pub total_sell_qty: Option<N>,
    /// Session open (`op` / `openingPrice`).
    pub open: Option<N>,
    /// Session high (`h` / `highPrice`).
    pub high: Option<N>,
    /// Session low (`lo` / `lowPrice`).
    pub low: Option<N>,
    /// Previous close (`c` / `ic`).
    pub prev_close: Option<N>,
    /// Average traded price (`ap`).
    pub avg_traded_price: Option<N>,
    /// Cumulative traded volume (`v` / `vol`).
    pub volume: Option<N>,
    /// Turnover (`to`).
    pub turnover: Option<N>,
    /// Open interest (`oi`).
    pub open_interest: Option<N>,
    /// Exchange feed timestamp (`ltt`, else `fdtm`).
    pub feed_time: Option<String>,
    /// Local wall clock (epoch millis) of the last merge.
    pub updated_at_ms: i64,
}

/// One decoded feed frame: for every key the feed may send, the value it
/// carried, or `None` when the key was absent or its value did not decode.
///
/// Numeric keys hold the decoded number; text keys hold the text as sent,
/// which the merge trims, treating a blank value as absent.
#[derive(Clone, Debug)]
pub struct FeedFrame<N> {
    pub ltp: Option<N>,
    pub iv: Option<N>,
    pub ltq: Option<N>,
    pub bp: Option<N>,
    pub sp: Option<N>,
    pub bq: Option<N>,
    pub bs: Option<N>,
    pub tbq: Option<N>,
    pub tsq: Option<N>,
    pub op: Option<N>,
    pub opening_price: Option<N>,
    pub h: Option<N>,
    pub high_price: Option<N>,
    pub lo: Option<N>,
    pub low_price: Option<N>,
    pub c: Option<N>,
    pub ic: Option<N>,
    pub ap: Option<N>,
    pub v: Option<N>,
    pub vol: Option<N>,
    pub to: Option<N>,
    pub oi: Option<N>,
    pub ts: Option<String>,
    pub ltt: Option<String>,
    pub fdtm: Option<String>,
}

/// A tick as the specifications see it: its text fields as text.
pub struct TickView<N> {
    pub key: Seq<char>,
    pub trading_symbol: Option<Seq<char>>,
    pub ltp: Option<N>,
    pub last_traded_qty: Option<N>,
    pub bid: Option<N>,
    pub ask: Option<N>,
    pub bid_qty: Option<N>,
    pub ask_qty: Option<N>,
    pub total_buy_qty: Option<N>,
    pub total_sell_qty: Option<N>,
    pub open: Option<N>,
    pub high: Option<N>,
    pub low: Option<N>,
    pub prev_close: Option<N>,
    pub avg_traded_price: Option<N>,
    pub volume: Option<N>,
    pub turnover: Option<N>,
    pub open_interest: Option<N>,
    pub feed_time: Option<Seq<char>>,
    pub updated_at_ms: i64,
}

/// A feed frame as the specifications see it: its text values as text.
pub struct FrameView<N> {
    pub ltp: Option<N>,
    pub iv: Option<N>,
    pub ltq: Option<N>,
    pub bp: Option<N>,
    pub sp: Option<N>,
    pub bq: Option<N>,
    pub bs: Option<N>,
    pub tbq: Option<N>,
    pub tsq: Option<N>,
    pub op: Option<N>,
    pub opening_price: Option<N>,
    pub h: Option<N>,
    pub high_price: Option<N>,
    pub lo: Option<N>,
    pub low_price: Option<N>,
    pub c: Option<N>,
    pub ic: Option<N>,
    pub ap: Option<N>,
    pub v: Option<N>,
    pub vol: Option<N>,
    pub to: Option<N>,
    pub oi: Option<N>,
    pub ts: Option<Seq<char>>,
    pub ltt: Option<Seq<char>>,
    pub fdtm: Option<Seq<char>>,
}

/// An optional text as text.
pub open spec fn text_view(o: Option<String>) -> Option<Seq<char>> {
    match o {
        Some(s) => Some(s@),
        None => None,
    }
}

impl<N> View for MarketTick<N> {
    type V = TickView<N>;

    open spec fn view(&self) -> TickView<N> {
        TickView {
            key: self.key@,
            trading_symbol: text_view(self.trading_symbol),
            ltp: self.ltp,
            last_traded_qty: self.last_traded_qty,
            bid: self.bid,
            ask: self.ask,
            bid_qty: self.bid_qty,
            ask_qty: self.ask_qty,
            total_buy_qty: self.total_buy_qty,
            total_sell_qty: self.total_sell_qty,
            open: self.open,
            high: self.high,
            low: self.low,
            prev_close: self.prev_close,
            avg_traded_price: self.avg_traded_price,
            volume: self.volume,
            turnover: self.turnover,
            open_interest: self.open_interest,
            feed_time: text_view(self.feed_time),
            updated_at_ms: self.updated_at_ms,
        }
    }
}

impl<N> View for FeedFrame<N> {
    type V = FrameView<N>;

    open spec fn view(&self) -> FrameView<N> {
        FrameView {
            ltp: self.ltp,
            iv: self.iv,
            ltq: self.ltq,
            bp: self.bp,
            sp: self.sp,
            bq: self.bq,
            bs: self.bs,
            tbq: self.tbq,
            tsq: self.tsq,
            op: self.op,
            opening_price: self.opening_price,
            h: self.h,
            high_price: self.high_price,
            lo: self.lo,
            low_price: self.low_price,
            c: self.c,
            ic: self.ic,
            ap: self.ap,
            v: self.v,
            vol: self.vol,
            to: self.to,
            oi: self.oi,
            ts: text_view(self.ts),
            ltt: text_view(self.ltt),
            fdtm: text_view(self.fdtm),
        }
    }
}

/// A value carried by a frame replaces the stored one; an absent value leaves
/// the stored one as it was.
pub open spec fn overlay<T>(stored: Option<T>, incoming: Option<T>) -> Option<T> {
    match incoming {
        Some(v) => Some(v),
        None => stored,
    }
}

/// The first of two alternatives that is present.
pub open spec fn first_present<T>(a: Option<T>, b: Option<T>) -> Option<T> {
    match a {
        Some(v) => Some(v),
        None => b,
    }
}

/// A text value sent by the feed, normalised by [`feed_text_of`].
pub open spec fn normalised(o: Option<Seq<char>>) -> Option<Seq<char>> {
    match o {
        Some(raw) => feed_text_of(raw),
        None => None,
    }
}

/// The tick that results from overlaying frame `f` onto `t` at local time `now_ms`.
///
/// Where a field has two feed keys, both are applied in order, so the second
/// key wins when both are present. Text values are trimmed first, and a blank
/// one counts as absent; for the feed time, `ltt` is preferred over `fdtm`.
pub open spec fn merged<N>(t: TickView<N>, f: FrameView<N>, now_ms: i64) -> TickView<N> {
    TickView {
        key: t.key,
        trading_symbol: overlay(t.trading_symbol, normalised(f.ts)),
        ltp: overlay(overlay(t.ltp, f.ltp), f.iv),
        last_traded_qty: overlay(t.last_traded_qty, f.ltq),
        bid: overlay(t.bid, f.bp),
        ask: overlay(t.ask, f.sp),
        bid_qty: overlay(t.bid_qty, f.bq),
        ask_qty: overlay(t.ask_qty, f.bs),
        total_buy_qty: overlay(t.total_buy_qty, f.tbq),
        total_sell_qty: overlay(t.total_sell_qty, f.tsq),
        open: overlay(overlay(t.open, f.op), f.opening_price),
        high: overlay(overlay(t.high, f.h), f.high_price),
        low: overlay(overlay(t.low, f.lo), f.low_price),
        prev_close: overlay(overlay(t.prev_close, f.c), f.ic),
        avg_traded_price: overlay(t.avg_traded_price, f.ap),
        volume: overlay(overlay(t.volume, f.v), f.vol),
        turnover: overlay(t.turnover, f.to),
        open_interest: overlay(t.open_interest, f.oi),
        feed_time: overlay(t.feed_time, first_present(normalised(f.ltt), normalised(f.fdtm))),
        updated_at_ms: now_ms,
    }
}

/// A frame that carries nothing.
pub open spec fn is_empty_frame<N>(f: FrameView<N>) -> bool {
    &&& f.ltp is None && f.iv is None && f.ltq is None && f.bp is None && f.sp is None
    &&& f.bq is None && f.bs is None && f.tbq is None && f.tsq is None
    &&& f.op is None && f.opening_price is None && f.h is None && f.high_price is None
    &&& f.lo is None && f.low_price is None && f.c is None && f.ic is None
    &&& f.ap is None && f.v is None && f.vol is None && f.to is None && f.oi is None
    &&& f.ts is None && f.ltt is None && f.fdtm is None
}

/// `i64::saturating_sub`: the difference, clamped to the range of `i64`.
pub open spec fn saturating_diff(a: i64, b: i64) -> int {
    let d = a - b;
    if d > i64::MAX {
        i64::MAX as int
    } else if d < i64::MIN {
        i64::MIN as int
    } else {
        d
    }
}

/// Whether a tick last merged at `updated_at_ms` is stale at `now_ms`.
pub open spec fn stale_at(updated_at_ms: i64, now_ms: i64, max_age_ms: i64) -> bool {
    saturating_diff(now_ms, updated_at_ms) > max_age_ms
}

/// A feed text value as the tick stores it: the trimmed text, or `None` when
/// nothing but whitespace was sent.
pub open spec fn feed_text_of(raw: Seq<char>) -> Option<Seq<char>> {
    let t = trim_ws(raw);
    if t.len() == 0 {
        None
    } else {
        Some(t)
    }
}

fn saturating_sub_i64(a: i64, b: i64) -> (r: i64)
    ensures
        r == saturating_diff(a, b),
{
    let d: i128 = a as i128 - b as i128;
    if d > i64::MAX as i128 {
        i64::MAX
    } else if d < i64::MIN as i128 {
        i64::MIN
    } else {
        d as i64
    }
}

fn overlay_num<N: Copy>(stored: &mut Option<N>, incoming: &Option<N>)
    ensures
        *final(stored) == overlay(*old(stored), *incoming),
{
    if let Some(v) = incoming {
        *stored = Some(*v);
    }
}

fn overlay_text(stored: &mut Option<String>, incoming: Option<String>)
    ensures
        text_view(*final(stored)) == overlay(text_view(*old(stored)), text_view(incoming)),
{
    if let Some(v) = incoming {
        *stored = Some(v);
    }
}

fn normalise(raw: &Option<String>) -> (r: Option<String>)
    ensures
        text_view(r) == normalised(text_view(*raw)),
{
    match raw {
        Some(v) => feed_text(v.as_str()),
        None => None,
    }
}

/// Normalise one text value sent by the feed: surrounding whitespace is
/// dropped, and a value that is empty once trimmed counts as absent.
pub fn feed_text(raw: &str) -> (r: Option<String>)
    ensures
        r is Some <==> feed_text_of(raw@) is Some,
        r matches Some(s) ==> s@ == feed_text_of(raw@)->0,
{
    let t = feed_trim(raw);
    if t.unicode_len() == 0 {
        None
    } else {
        Some(t.to_owned())
    }
}

impl<N> FeedFrame<N> {
    /// A frame with every key absent.
    pub fn empty() -> (f: Self)
        ensures
            is_empty_frame(f@),
    {
        FeedFrame {
            ltp: None,
            iv: None,
            ltq: None,
            bp: None,
            sp: None,
            bq: None,
            bs: None,
            tbq: None,
            tsq: None,
            op: None,
            opening_price: None,
            h: None,
            high_price: None,
            lo: None,
            low_price: None,
            c: None,
            ic: None,
            ap: None,
            v: None,
            vol: None,
            to: None,
            oi: None,
            ts: None,
            ltt: None,
            fdtm: None,
        }
    }
}

impl<N: Copy> MarketTick<N> {
    /// A tick for `key` that has received nothing yet.
    pub fn new(key: &str) -> (t: Self)
        ensures
            t.key@ == key@,
            t.trading_symbol is None && t.feed_time is None,
            t.ltp is None && t.last_traded_qty is None && t.bid is None && t.ask is None,
            t.bid_qty is None && t.ask_qty is None,
            t.total_buy_qty is None && t.total_sell_qty is None,
            t.open is None && t.high is None && t.low is None && t.prev_close is None,
            t.avg_traded_price is None && t.volume is None && t.turnover is None,
            t.open_interest is None,
            t.updated_at_ms == 0,
    {
        MarketTick {
            key: key.to_owned(),
            trading_symbol: None,
            ltp: None,
            last_traded_qty: None,
            bid: None,
            ask: None,
            bid_qty: None,
            ask_qty: None,
            total_buy_qty: None,
            total_sell_qty: None,
            open: None,
            high: None,
            low: None,
            prev_close: None,
            avg_traded_price: None,
            volume: None,
            turnover: None,
            open_interest: None,
            feed_time: None,
            updated_at_ms: 0,
        }
    }

    /// Overlay one incremental feed frame onto this tick.
    ///
    /// Only values actually present in `frame` are written; absent keys leave
    /// the existing value intact. The merge time is recorded as `now_ms`.
    pub fn merge_from(&mut self, frame: &FeedFrame<N>, now_ms: i64)
        ensures
            final(self)@ == merged(old(self)@, frame@, now_ms),
    {
        overlay_num(&mut self.ltp, &frame.ltp);
        overlay_num(&mut self.ltp, &frame.iv);
        overlay_num(&mut self.last_traded_qty, &frame.ltq);
        overlay_num(&mut self.bid, &frame.bp);
        overlay_num(&mut self.ask, &frame.sp);
        overlay_num(&mut self.bid_qty, &frame.bq);
        overlay_num(&mut self.ask_qty, &frame.bs);
        overlay_num(&mut self.total_buy_qty, &frame.tbq);
        overlay_num(&mut self.total_sell_qty, &frame.tsq);
        overlay_num(&mut self.open, &frame.op);
        overlay_num(&mut self.open, &frame.opening_price);
        overlay_num(&mut self.high, &frame.h);
        overlay_num(&mut self.high, &frame.high_price);
        overlay_num(&mut self.low, &frame.lo);
        overlay_num(&mut self.low, &frame.low_price);
        overlay_num(&mut self.prev_close, &frame.c);
        overlay_num(&mut self.prev_close, &frame.ic);
        overlay_num(&mut self.avg_traded_price, &frame.ap);
        overlay_num(&mut self.volume, &frame.v);
        overlay_num(&mut self.volume, &frame.vol);
        overlay_num(&mut self.turnover, &frame.to);
        overlay_num(&mut self.open_interest, &frame.oi);
        overlay_text(&mut self.trading_symbol, normalise(&frame.ts));
        let ltt = normalise(&frame.ltt);
        if ltt.is_some() {
            overlay_text(&mut self.feed_time, ltt);
        } else {
            overlay_text(&mut self.feed_time, normalise(&frame.fdtm));
        }
        self.updated_at_ms = now_ms;
    }

    /// True when the last merge is older than `max_age_ms` at `now_ms`.
    ///
    /// The age is `now_ms - updated_at_ms`, saturated to the range of `i64`.
    pub fn is_stale(&self, now_ms: i64, max_age_ms: i64) -> (r: bool)
        ensures
            r == stale_at(self.updated_at_ms, now_ms, max_age_ms),
    {
        saturating_sub_i64(now_ms, self.updated_at_ms) > max_age_ms
    }
}

/// Merging is idempotent: applying the same frame twice at the same time
/// leaves the tick as one application did.
pub proof fn merge_is_idempotent<N>(t: TickView<N>, f: FrameView<N>, now_ms: i64)
    ensures
        merged(merged(t, f, now_ms), f, now_ms) == merged(t, f, now_ms),
{
}

/// An incremental frame never erases what an earlier frame delivered: every
/// field that a later frame does not carry keeps the value the earlier merge
/// left in it, and the feed key never changes.
pub proof fn later_frames_keep_unsent_fields<N>(
    t: TickView<N>,
    f1: FrameView<N>,
    t1: i64,
    f2: FrameView<N>,
    t2: i64,
)
    ensures
        ({
            let a = merged(t, f1, t1);
            let b = merged(a, f2, t2);
            &&& b.key == t.key
            &&& (f2.ltp is None && f2.iv is None ==> b.ltp == a.ltp)
            &&& (f2.ltq is None ==> b.last_traded_qty == a.last_traded_qty)
            &&& (f2.bp is None ==> b.bid == a.bid)
            &&& (f2.sp is None ==> b.ask == a.ask)
            &&& (f2.bq is None ==> b.bid_qty == a.bid_qty)
            &&& (f2.bs is None ==> b.ask_qty == a.ask_qty)
            &&& (f2.tbq is None ==> b.total_buy_qty == a.total_buy_qty)
            &&& (f2.tsq is None ==> b.total_sell_qty == a.total_sell_qty)
            &&& (f2.op is None && f2.opening_price is None ==> b.open == a.open)
            &&& (f2.h is None && f2.high_price is None ==> b.high == a.high)
            &&& (f2.lo is None && f2.low_price is None ==> b.low == a.low)
            &&& (f2.c is None && f2.ic is None ==> b.prev_close == a.prev_close)
            &&& (f2.ap is None ==> b.avg_traded_price == a.avg_traded_price)
            &&& (f2.v is None && f2.vol is None ==> b.volume == a.volume)
            &&& (f2.to is None ==> b.turnover == a.turnover)
            &&& (f2.oi is None ==> b.open_interest == a.open_interest)
            &&& (normalised(f2.ts) is None ==> b.trading_symbol == a.trading_symbol)
            &&& (normalised(f2.ltt) is None && normalised(f2.fdtm) is None ==> b.feed_time
                == a.feed_time)
            &&& b.updated_at_ms == t2
        }),
{
}

/// Blank text never overwrites a stored value: a symbol or feed time that is
/// only whitespace leaves the known one in place, and a stored text is never
/// blank.
pub proof fn blank_text_never_overwrites<N>(t: TickView<N>, f: FrameView<N>, now_ms: i64)
    ensures
        (f.ts matches Some(raw) && trim_ws(raw).len() == 0) ==> merged(t, f, now_ms).trading_symbol
            == t.trading_symbol,
        (t.trading_symbol matches Some(x) ==> x.len() > 0) ==> (merged(
            t,
            f,
            now_ms,
        ).trading_symbol matches Some(x) ==> x.len() > 0),
        (t.feed_time matches Some(x) ==> x.len() > 0) ==> (merged(t, f, now_ms).feed_time matches Some(
            x,
        ) ==> x.len() > 0),
{
}

/// A frame that carries nothing only refreshes the merge time.
pub proof fn empty_frame_only_stamps<N>(t: TickView<N>, f: FrameView<N>, now_ms: i64)
    requires
        is_empty_frame(f),
    ensures
        merged(t, f, now_ms) == (TickView { updated_at_ms: now_ms, ..t }),
{
}

/// Staleness only grows with time: a tick stale at `now_ms` stays stale at
/// every later time.
pub proof fn staleness_is_monotone(updated_at_ms: i64, now_ms: i64, later_ms: i64, max_age_ms: i64)
    requires
        now_ms <= later_ms,
        stale_at(updated_at_ms, now_ms, max_age_ms),
    ensures
        stale_at(updated_at_ms, later_ms, max_age_ms),
{
}

/// A tick is never stale at the very time it was merged, for any
/// non-negative maximum age.
pub proof fn fresh_when_just_merged<N>(t: TickView<N>, f: FrameView<N>, now_ms: i64, max_age_ms: i64)
    requires
        max_age_ms >= 0,
    ensures
        !stale_at(merged(t, f, now_ms).updated_at_ms, now_ms, max_age_ms),
{
}

} // verus!

verus! {

/// A value a frame carries is what the tick holds afterwards. Where a field
/// has two feed keys, the second key's value is held when it is present, and
/// otherwise the first key's. Non-blank text is held trimmed, the feed time
/// coming from `ltt` when it is non-blank and from `fdtm` otherwise. The
/// merge time is the time given, and the feed key never changes.
pub proof fn frame_values_are_stored<N>(t: TickView<N>, f: FrameView<N>, now_ms: i64)
    ensures
        ({
            let m = merged(t, f, now_ms);
            &&& m.key == t.key
            &&& m.updated_at_ms == now_ms
            &&& (f.iv matches Some(x) ==> m.ltp == Some(x))
            &&& (f.iv is None ==> (f.ltp matches Some(x) ==> m.ltp == Some(x)))
            &&& (f.ltq matches Some(x) ==> m.last_traded_qty == Some(x))
            &&& (f.bp matches Some(x) ==> m.bid == Some(x))
            &&& (f.sp matches Some(x) ==> m.ask == Some(x))
            &&& (f.bq matches Some(x) ==> m.bid_qty == Some(x))
            &&& (f.bs matches Some(x) ==> m.ask_qty == Some(x))
            &&& (f.tbq matches Some(x) ==> m.total_buy_qty == Some(x))
            &&& (f.tsq matches Some(x) ==> m.total_sell_qty == Some(x))
            &&& (f.opening_price matches Some(x) ==> m.open == Some(x))
            &&& (f.opening_price is None ==> (f.op matches Some(x) ==> m.open == Some(x)))
            &&& (f.high_price matches Some(x) ==> m.high == Some(x))
            &&& (f.high_price is None ==> (f.h matches Some(x) ==> m.high == Some(x)))
            &&& (f.low_price matches Some(x) ==> m.low == Some(x))
            &&& (f.low_price is None ==> (f.lo matches Some(x) ==> m.low == Some(x)))
            &&& (f.ic matches Some(x) ==> m.prev_close == Some(x))
            &&& (f.ic is None ==> (f.c matches Some(x) ==> m.prev_close == Some(x)))
            &&& (f.ap matches Some(x) ==> m.avg_traded_price == Some(x))
            &&& (f.vol matches Some(x) ==> m.volume == Some(x))
            &&& (f.vol is None ==> (f.v matches Some(x) ==> m.volume == Some(x)))
            &&& (f.to matches Some(x) ==> m.turnover == Some(x))
            &&& (f.oi matches Some(x) ==> m.open_interest == Some(x))
            &&& (f.ts matches Some(raw) ==> (trim_ws(raw).len() > 0 ==> m.trading_symbol == Some(
                trim_ws(raw),
            )))
            &&& (f.ltt matches Some(raw) ==> (trim_ws(raw).len() > 0 ==> m.feed_time == Some(
                trim_ws(raw),
            )))
            &&& ((f.ltt matches Some(raw) ==> trim_ws(raw).len() == 0) ==> (f.fdtm matches Some(raw2)
                ==> (trim_ws(raw2).len() > 0 ==> m.feed_time == Some(trim_ws(raw2)))))
        }),
{
}

/// Staleness compares the age with the maximum: whenever `now_ms -
/// updated_at_ms` fits in an `i64`, a tick is stale exactly when that age
/// exceeds `max_age_ms`; an age too large for an `i64` counts as the largest
/// one, and one too small as the smallest.
pub proof fn stale_means_older_than_max_age(updated_at_ms: i64, now_ms: i64, max_age_ms: i64)
    ensures
        i64::MIN <= now_ms - updated_at_ms <= i64::MAX ==> (stale_at(
            updated_at_ms,
            now_ms,
            max_age_ms,
        ) <==> now_ms - updated_at_ms > max_age_ms),
        now_ms - updated_at_ms > i64::MAX ==> (stale_at(updated_at_ms, now_ms, max_age_ms) <==> (
        max_age_ms < i64::MAX)),
        now_ms - updated_at_ms < i64::MIN ==> !stale_at(updated_at_ms, now_ms, max_age_ms),
{
}

} // verus!
