//! The strategy engine's decisions: when to evaluate, how taps on
//! value-area levels are counted, and how the position moves between flat,
//! a resting entry order and an open position protected by an exchange-side
//! stop. The loop that talks to the exchange performs the actions chosen
//! here and reports back what happened.
use vstd::prelude::*;
use std::collections::HashMap;
use crate::strategy::state::VpLevelKind;
use crate::text::str_eq;
use crate::exchange::types::OrderRequest;

verus! {

broadcast use vstd::std_specs::hash::group_hash_axioms;

/// The traded contract.
pub const SYMBOL: &'static str = "BTCUSDT";

/// Length of the evaluation candle, in seconds (15 minutes).
pub const CANDLE_SECS: u64 = 900;

/// Fewest closed 15m candles the evaluation needs.
pub const MIN_15M_CANDLES: usize = 150;

/// Fewest 1h candles of the current week the volume profile needs.
pub const MIN_WEEKLY_CANDLES: usize = 24;

/// Order side as the exchange spells it.
#[derive(Clone, Copy, PartialEq, Eq, Structural, Debug)]
pub enum Side {
    Buy,
    Sell,
}

impl Side {
    pub open spec fn spec_is_long(self) -> bool {
        self == Side::Buy
    }

    pub open spec fn spec_opposite(self) -> Side {
        match self {
            Side::Buy => Side::Sell,
            Side::Sell => Side::Buy,
        }
    }

    pub open spec fn spec_text(self) -> Seq<char> {
        match self {
            Side::Buy => "BUY"@,
            Side::Sell => "SELL"@,
        }
    }

    /// The side that opens a long (`Buy`) or a short (`Sell`) position.
    pub fn from_long(is_long: bool) -> (s: Side)
        ensures
            s.spec_is_long() == is_long,
    {
        if is_long {
            Side::Buy
        } else {
            Side::Sell
        }
    }

    pub fn is_long(&self) -> (b: bool)
        ensures
            b == self.spec_is_long(),
    {
        match self {
            Side::Buy => true,
            Side::Sell => false,
        }
    }

    /// The side that closes a position opened on this side.
    pub fn opposite(&self) -> (s: Side)
        ensures
            s == self.spec_opposite(),
    {
        match self {
            Side::Buy => Side::Sell,
            Side::Sell => Side::Buy,
        }
    }

    /// The exchange's spelling: `BUY` or `SELL`.
    pub fn as_str(&self) -> (s: &'static str)
        ensures
            s@ == self.spec_text(),
    {
        match self {
            Side::Buy => "BUY",
            Side::Sell => "SELL",
        }
    }

    /// Reads a side: `BUY` is a buy, anything else a sell.
    pub fn parse(text: &str) -> (s: Side)
        ensures
            s == (if text@ == "BUY"@ { Side::Buy } else { Side::Sell }),
    {
        if str_eq(text, "BUY") {
            Side::Buy
        } else {
            Side::Sell
        }
    }
}

/// The closing side differs from the opening side, and closing a close
/// gives back the opening side.
pub proof fn lemma_opposite_side(s: Side)
    ensures
        s.spec_opposite() != s,
        s.spec_opposite().spec_opposite() == s,
        s.spec_opposite().spec_is_long() == !s.spec_is_long(),
{
}

/// Writing a side and reading it back gives the same side.
pub proof fn lemma_side_text_round_trip(s: Side)
    ensures
        (if s.spec_text() == "BUY"@ { Side::Buy } else { Side::Sell }) == s,
{
    reveal_strlit("BUY");
    reveal_strlit("SELL");
    if s == Side::Sell {
        assert(s.spec_text().len() != "BUY"@.len());
    }
}

// ---------------------------------------------------------------- clock

/// Start of the 15m candle that holds `now` (seconds).
pub open spec fn boundary_of(now: nat) -> nat {
    (now - now % (CANDLE_SECS as nat)) as nat
}

/// Start of the 15m candle that holds `now_secs`.
pub fn candle_boundary(now_secs: u64) -> (b: u64)
    ensures
        b == boundary_of(now_secs as nat),
        b <= now_secs,
        b % CANDLE_SECS == 0,
        now_secs - b < CANDLE_SECS,
{
    now_secs - now_secs % CANDLE_SECS
}

/// Seconds in a day.
pub open spec fn day_secs() -> int {
    86400
}

/// Earliest and latest second that a UTC date-time can hold (years -262143
/// and 262142), the range of clock readings the week arithmetic accepts.
pub open spec fn clock_min_secs() -> int {
    -8334601315200
}

pub open spec fn clock_max_secs() -> int {
    8210266876799
}

/// Days since 1970-01-01 of the day holding `now` (floor).
pub open spec fn epoch_day(now: int) -> int {
    now / day_secs()
}

/// Day of the week of an epoch day, counted from Sunday = 0
/// (1970-01-01 was a Thursday).
pub open spec fn weekday_from_sunday(day: int) -> int {
    (day + 4) % 7
}

/// Milliseconds since the epoch of the Sunday 00:00 UTC that starts the
/// week holding `now` (seconds).
pub open spec fn week_start_ms_of(now: int) -> int {
    let day = epoch_day(now);
    (day - weekday_from_sunday(day)) * day_secs() * 1000
}

/// Start of the current week (Sunday 00:00 UTC) in milliseconds, for a clock
/// reading of `now_secs` seconds since the epoch.
pub fn week_start_ms(now_secs: i64) -> (ms: i64)
    requires
        clock_min_secs() <= now_secs <= clock_max_secs(),
    ensures
        ms == week_start_ms_of(now_secs as int),
{
    // Shift by a whole number of weeks so that the divisions run on a
    // non-negative value.
    let shift_days: i64 = 98_000_000;
    let shifted: i64 = now_secs + shift_days * 86400;
    let days: i64 = shifted / 86400;
    let dow: i64 = (days + 4) % 7;
    let sunday: i64 = days - dow - shift_days;
    proof {
        let n = now_secs as int;
        assert(shifted as int == n + 98_000_000 * 86400);
        assert(shifted >= 0);
        lemma_floor_shift(n, 98_000_000, 86400);
        assert(days as int == epoch_day(n) + 98_000_000);
        lemma_mod_shift(epoch_day(n) + 4, 14_000_000, 7);
        assert(dow as int == weekday_from_sunday(epoch_day(n)));
        assert(0 <= dow < 7);
        assert(epoch_day(n) >= clock_min_secs() / 86400) by (nonlinear_arith)
            requires n >= clock_min_secs(), epoch_day(n) == n / 86400;
        assert(epoch_day(n) <= clock_max_secs() / 86400) by (nonlinear_arith)
            requires n <= clock_max_secs(), epoch_day(n) == n / 86400;
    }
    sunday * 86_400_000
}

/// Adding whole multiples of the divisor shifts the quotient by as many.
proof fn lemma_floor_shift(n: int, k: int, d: int)
    requires
        d > 0,
    ensures
        (n + k * d) / d == n / d + k,
{
    vstd::arithmetic::div_mod::lemma_hoist_over_denominator(n, k, d as nat);
}

/// Adding whole multiples of the modulus leaves the remainder alone.
proof fn lemma_mod_shift(n: int, k: int, d: int)
    requires
        d > 0,
    ensures
        (n + k * d) % d == n % d,
{
    vstd::arithmetic::div_mod::lemma_mod_multiples_vanish(k, n, d);
    assert(d * k == k * d) by (nonlinear_arith);
}


// ---------------------------------------------------------------- taps

/// Taps counted on one level (keyed by its price rounded to whole dollars)
/// and whether a 4h candle confirmed it.
#[derive(Clone, Copy, PartialEq, Eq, Structural, Debug)]
pub struct TapRecord {
    pub taps: u32,
    pub confirmed_4h: bool,
}

impl TapRecord {
    pub open spec fn spec_is_high_prob(self) -> bool {
        self.taps > 1 && self.confirmed_4h
    }
}

/// The record of a level that was never tapped.
pub open spec fn untapped() -> TapRecord {
    TapRecord { taps: 0, confirmed_4h: false }
}

/// The record filed under `key`, or the untapped record.
pub open spec fn record_at(book: Map<u64, TapRecord>, key: u64) -> TapRecord {
    if book.contains_key(key) {
        book[key]
    } else {
        untapped()
    }
}

/// The record after one more tap, with or without a 4h confirmation.
pub open spec fn after_tap(r: TapRecord, confirmed_4h: bool) -> TapRecord {
    TapRecord { taps: (r.taps + 1) as u32, confirmed_4h: r.confirmed_4h || confirmed_4h }
}

/// Whether one more tap on `key` can still be counted.
pub open spec fn can_tap(book: Map<u64, TapRecord>, key: u64) -> bool {
    record_at(book, key).taps < u32::MAX
}

/// Tap counts per level, keyed by the level's price rounded to whole
/// dollars.
pub struct TapBook {
    records: HashMap<u64, TapRecord>,
}

impl View for TapBook {
    type V = Map<u64, TapRecord>;

    closed spec fn view(&self) -> Map<u64, TapRecord> {
        self.records@
    }
}

impl TapBook {
    pub fn new() -> (book: TapBook)
        ensures
            book@ == Map::<u64, TapRecord>::empty(),
    {
        TapBook { records: HashMap::new() }
    }

    /// The record filed under `key`, if the level was ever tapped.
    pub fn get(&self, key: u64) -> (r: Option<TapRecord>)
        ensures
            r == (if self@.contains_key(key) { Some(self@[key]) } else { None::<TapRecord> }),
    {
        match self.records.get(&key) {
            Some(rec) => Some(*rec),
            None => None,
        }
    }

    /// Counts a tap on the level filed under `key`, keeps a 4h confirmation
    /// once seen, and tells whether the level is now high-probability
    /// (tapped more than once and confirmed).
    pub fn record_tap(&mut self, key: u64, confirmed_4h: bool) -> (high_prob: bool)
        requires
            can_tap(old(self)@, key),
        ensures
            final(self)@ == old(self)@.insert(key, after_tap(record_at(old(self)@, key), confirmed_4h)),
            high_prob == after_tap(record_at(old(self)@, key), confirmed_4h).spec_is_high_prob(),
    {
        let prev = match self.records.get(&key) {
            Some(rec) => *rec,
            None => TapRecord { taps: 0, confirmed_4h: false },
        };
        let next = TapRecord { taps: prev.taps + 1, confirmed_4h: prev.confirmed_4h || confirmed_4h };
        self.records.insert(key, next);
        next.taps > 1 && next.confirmed_4h
    }
}

/// A tap adds exactly one to its level's count, leaves every other level
/// alone, and leaves the level confirmed exactly when it was confirmed before
/// or this tap is confirmed.
pub proof fn lemma_tap_counts(book: Map<u64, TapRecord>, key: u64, confirmed_4h: bool, other: u64)
    requires
        can_tap(book, key),
    ensures
        ({
            let after = book.insert(key, after_tap(record_at(book, key), confirmed_4h));
            &&& record_at(after, key).taps == record_at(book, key).taps + 1
            &&& record_at(after, key).confirmed_4h == (record_at(book, key).confirmed_4h || confirmed_4h)
            &&& other != key ==> record_at(after, other) == record_at(book, other)
        }),
{
}

/// Once a level is high-probability, further taps keep it so.
pub proof fn lemma_high_prob_persists(book: Map<u64, TapRecord>, key: u64, confirmed_4h: bool)
    requires
        can_tap(book, key),
        record_at(book, key).spec_is_high_prob(),
    ensures
        after_tap(record_at(book, key), confirmed_4h).spec_is_high_prob(),
{
}

/// A level becomes high-probability no earlier than its second tap, and at
/// its second tap exactly when some tap so far was confirmed.
pub proof fn lemma_second_confirmed_tap(c1: bool, c2: bool)
    ensures
        !after_tap(untapped(), c1).spec_is_high_prob(),
        after_tap(after_tap(untapped(), c1), c2).spec_is_high_prob() == (c1 || c2),
{
}

// ---------------------------------------------------------------- levels

/// The levels to watch for a tap, with the direction a tap would trade:
/// above the point of control it is support (long) and the value-area high
/// resistance (short); below it the point of control is resistance (short)
/// and the value-area low support (long). The point of control comes first.
pub open spec fn candidate_plan(price_above_poc: bool) -> Seq<(VpLevelKind, bool)> {
    if price_above_poc {
        seq![(VpLevelKind::PoC, true), (VpLevelKind::VAH, false)]
    } else {
        seq![(VpLevelKind::PoC, false), (VpLevelKind::VAL, true)]
    }
}

/// The candidate levels for a price above or below the point of control.
pub fn candidate_levels(price_above_poc: bool) -> (c: Vec<(VpLevelKind, bool)>)
    ensures
        c@ == candidate_plan(price_above_poc),
{
    if price_above_poc {
        vec![(VpLevelKind::PoC, true), (VpLevelKind::VAH, false)]
    } else {
        vec![(VpLevelKind::PoC, false), (VpLevelKind::VAL, true)]
    }
}

/// Whether enough candles are at hand to evaluate: at least 150 closed 15m
/// candles and 24 hourly candles of the current week.
pub fn has_enough_history(n_15m: usize, n_weekly: usize) -> (ok: bool)
    ensures
        ok == (n_15m >= MIN_15M_CANDLES && n_weekly >= MIN_WEEKLY_CANDLES),
{
    !(n_15m < MIN_15M_CANDLES || n_weekly < MIN_WEEKLY_CANDLES)
}


// ---------------------------------------------------------------- position

/// Where the position stands. Prices and sizes ride alongside in the
/// caller; the exchange's order ids are kept here.
#[derive(Clone, Copy, PartialEq, Eq, Structural, Debug)]
pub enum Phase {
    /// No position and no resting entry order.
    Flat,
    /// A limit entry order rests on the book.
    PendingEntry { side: Side, order_id: u64 },
    /// A position is open, protected by the exchange-side stop order.
    Open { side: Side, stop_order_id: u64 },
}

/// What the loop does on this turn.
#[derive(Clone, Copy, PartialEq, Eq, Structural, Debug)]
pub enum Step {
    /// Evaluate the strategy on the candle that just closed.
    Evaluate,
    /// Ask the exchange how the resting entry order stands.
    CheckFill,
    /// Look after the open position.
    Manage,
    /// Nothing to do until the next turn.
    Wait,
}

/// What to do after the exchange reported the entry order's status.
#[derive(Clone, Copy, PartialEq, Eq, Structural, Debug)]
pub enum FillStep {
    /// The entry filled: place the stop and take-profit orders on
    /// `close_side`, then report the stop's id with `confirm_fill`.
    Protect { close_side: Side },
    /// The entry order was cancelled or expired; the engine is flat again.
    Abandoned,
    /// The entry order still rests.
    Waiting,
    /// There is no entry order to look after.
    Idle,
}

/// What to do with the open position on this turn.
#[derive(Clone, Copy, PartialEq, Eq, Structural, Debug)]
pub enum ManageStep {
    /// The exchange shows no position (the stop or take-profit fired): the
    /// engine is flat again.
    Closed,
    /// The exit signal fired: close the position with a reduce-only market
    /// order on `close_side`; the engine is flat again.
    Exit { close_side: Side },
    /// Keep the position: move the stop if it moved enough, replacing the
    /// stop order `stop_order_id` with a new one on `close_side`.
    Trail { close_side: Side, stop_order_id: u64 },
    /// There is no open position to look after.
    Idle,
}

/// The engine's state between turns.
pub struct EngineState {
    pub phase: Phase,
    /// Start of the last 15m candle that was evaluated (seconds).
    pub last_eval_ts: u64,
    pub taps: TapBook,
}

/// The step the loop takes at `now` from `phase`, and the evaluation mark
/// afterwards.
pub open spec fn tick_of(phase: Phase, last_eval_ts: u64, now: u64) -> (Step, u64) {
    match phase {
        Phase::Flat => {
            if boundary_of(now as nat) > last_eval_ts {
                (Step::Evaluate, boundary_of(now as nat) as u64)
            } else {
                (Step::Wait, last_eval_ts)
            }
        },
        Phase::PendingEntry { .. } => (Step::CheckFill, last_eval_ts),
        Phase::Open { .. } => (Step::Manage, last_eval_ts),
    }
}

/// The step and the phase after the exchange reported `status` for the
/// entry order: a fill asks for protective orders on the closing side (the
/// position opens once they rest), a cancelled or expired order leaves the
/// engine flat, any other status keeps waiting.
pub open spec fn fill_transition(phase: Phase, status: Seq<char>) -> (FillStep, Phase) {
    match phase {
        Phase::PendingEntry { side, order_id } => {
            if status == "FILLED"@ {
                (FillStep::Protect { close_side: side.spec_opposite() }, phase)
            } else if status == "CANCELED"@ || status == "EXPIRED"@ {
                (FillStep::Abandoned, Phase::Flat)
            } else {
                (FillStep::Waiting, phase)
            }
        },
        _ => (FillStep::Idle, phase),
    }
}

/// The step and the phase after one turn of position management.
pub open spec fn manage_transition(phase: Phase, position_on_exchange: bool, exit_signal: bool) -> (ManageStep, Phase) {
    match phase {
        Phase::Open { side, stop_order_id } => {
            if !position_on_exchange {
                (ManageStep::Closed, Phase::Flat)
            } else if exit_signal {
                (ManageStep::Exit { close_side: side.spec_opposite() }, Phase::Flat)
            } else {
                (ManageStep::Trail { close_side: side.spec_opposite(), stop_order_id }, phase)
            }
        },
        _ => (ManageStep::Idle, phase),
    }
}

/// The moves the position may make in one step: flat to a resting entry,
/// a resting entry to an open position on the same side or back to flat,
/// an open position to flat or to itself with another stop order.
pub open spec fn may_follow(from: Phase, to: Phase) -> bool {
    from == to || match from {
        Phase::Flat => to is PendingEntry,
        Phase::PendingEntry { side, order_id } => to is Flat || (to is Open && to->Open_side == side),
        Phase::Open { side, stop_order_id } => to is Flat || (to is Open && to->Open_side == side),
    }
}

impl EngineState {
    pub fn new() -> (s: EngineState)
        ensures
            s.phase == Phase::Flat,
            s.last_eval_ts == 0,
            s.taps@ == Map::<u64, TapRecord>::empty(),
    {
        EngineState { phase: Phase::Flat, last_eval_ts: 0, taps: TapBook::new() }
    }

    /// One turn of the loop at clock reading `now_secs`: when flat, evaluate
    /// once per closed 15m candle; with a resting entry, check its fill;
    /// with an open position, manage it.
    pub fn tick(&mut self, now_secs: u64) -> (step: Step)
        ensures
            (step, final(self).last_eval_ts) == tick_of(old(self).phase, old(self).last_eval_ts, now_secs),
            final(self).phase == old(self).phase,
            final(self).taps@ == old(self).taps@,
    {
        match self.phase {
            Phase::Flat => {
                let boundary = candle_boundary(now_secs);
                if boundary > self.last_eval_ts {
                    self.last_eval_ts = boundary;
                    Step::Evaluate
                } else {
                    Step::Wait
                }
            },
            Phase::PendingEntry { .. } => Step::CheckFill,
            Phase::Open { .. } => Step::Manage,
        }
    }

    /// A limit entry order `order_id` on `side` was placed.
    pub fn enter(&mut self, side: Side, order_id: u64)
        requires
            old(self).phase == Phase::Flat,
        ensures
            final(self).phase == (Phase::PendingEntry { side, order_id }),
            final(self).last_eval_ts == old(self).last_eval_ts,
            final(self).taps@ == old(self).taps@,
    {
        self.phase = Phase::PendingEntry { side, order_id };
    }

    /// The exchange reported `status` for the resting entry order.
    pub fn on_order_status(&mut self, status: &str) -> (step: FillStep)
        ensures
            (step, final(self).phase) == fill_transition(old(self).phase, status@),
            final(self).last_eval_ts == old(self).last_eval_ts,
            final(self).taps@ == old(self).taps@,
    {
        match self.phase {
            Phase::PendingEntry { side, order_id: _ } => {
                if str_eq(status, "FILLED") {
                    FillStep::Protect { close_side: side.opposite() }
                } else if str_eq(status, "CANCELED") || str_eq(status, "EXPIRED") {
                    self.phase = Phase::Flat;
                    FillStep::Abandoned
                } else {
                    FillStep::Waiting
                }
            },
            _ => FillStep::Idle,
        }
    }

    /// The entry filled and the protective stop order `stop_order_id` rests
    /// on the exchange: the position is open.
    pub fn confirm_fill(&mut self, stop_order_id: u64)
        requires
            old(self).phase is PendingEntry,
        ensures
            final(self).phase == (Phase::Open { side: old(self).phase->PendingEntry_side, stop_order_id }),
            final(self).last_eval_ts == old(self).last_eval_ts,
            final(self).taps@ == old(self).taps@,
    {
        match self.phase {
            Phase::PendingEntry { side, order_id: _ } => {
                self.phase = Phase::Open { side, stop_order_id };
            },
            _ => {},
        }
    }

    /// A position on `side` was found on the exchange at start-up: it is
    /// taken over as open, with no stop order known to this engine.
    pub fn adopt_position(&mut self, side: Side)
        ensures
            final(self).phase == (Phase::Open { side, stop_order_id: 0 }),
            final(self).last_eval_ts == old(self).last_eval_ts,
            final(self).taps@ == old(self).taps@,
    {
        self.phase = Phase::Open { side, stop_order_id: 0 };
    }

    /// One turn of position management, given whether the exchange still
    /// shows a position and whether the exit signal fired at the current
    /// price. The exchange is the source of truth: a position it no longer
    /// shows is closed here too.
    pub fn manage(&mut self, position_on_exchange: bool, exit_signal: bool) -> (step: ManageStep)
        ensures
            (step, final(self).phase) == manage_transition(old(self).phase, position_on_exchange, exit_signal),
            final(self).last_eval_ts == old(self).last_eval_ts,
            final(self).taps@ == old(self).taps@,
    {
        match self.phase {
            Phase::Open { side, stop_order_id } => {
                if !position_on_exchange {
                    self.phase = Phase::Flat;
                    ManageStep::Closed
                } else if exit_signal {
                    self.phase = Phase::Flat;
                    ManageStep::Exit { close_side: side.opposite() }
                } else {
                    ManageStep::Trail { close_side: side.opposite(), stop_order_id }
                }
            },
            _ => ManageStep::Idle,
        }
    }

    /// The stop order was replaced by `stop_order_id`.
    pub fn replace_stop(&mut self, stop_order_id: u64)
        requires
            old(self).phase is Open,
        ensures
            final(self).phase == (Phase::Open { side: old(self).phase->Open_side, stop_order_id }),
            final(self).last_eval_ts == old(self).last_eval_ts,
            final(self).taps@ == old(self).taps@,
    {
        match self.phase {
            Phase::Open { side, stop_order_id: _ } => {
                self.phase = Phase::Open { side, stop_order_id };
            },
            _ => {},
        }
    }
}


// ---------------------------------------------------------------- orders

/// The resting limit entry order: good till cancelled at the level's price.
pub fn entry_order(side: Side, quantity: String, price: String) -> (o: OrderRequest)
    ensures
        o.symbol@ == SYMBOL@,
        o.side@ == side.spec_text(),
        o.order_type@ == "LIMIT"@,
        o.quantity@ == quantity@,
        o.price == Some(price),
        o.stop_price is None,
        o.time_in_force matches Some(t) && t@ == "GTC"@,
        o.reduce_only is None,
{
    OrderRequest {
        symbol: String::from_str(SYMBOL),
        side: String::from_str(side.as_str()),
        order_type: String::from_str("LIMIT"),
        quantity,
        price: Some(price),
        stop_price: None,
        time_in_force: Some(String::from_str("GTC")),
        reduce_only: None,
    }
}

/// An exchange-side protective order that triggers at `stop_price` and only
/// reduces the position: `STOP_MARKET` for the stop loss,
/// `TAKE_PROFIT_MARKET` for the take profit.
pub fn protective_order(close_side: Side, quantity: String, stop_price: String, take_profit: bool) -> (o: OrderRequest)
    ensures
        o.symbol@ == SYMBOL@,
        o.side@ == close_side.spec_text(),
        o.order_type@ == (if take_profit { "TAKE_PROFIT_MARKET"@ } else { "STOP_MARKET"@ }),
        o.quantity@ == quantity@,
        o.price is None,
        o.stop_price == Some(stop_price),
        o.time_in_force is None,
        o.reduce_only == Some(true),
{
    OrderRequest {
        symbol: String::from_str(SYMBOL),
        side: String::from_str(close_side.as_str()),
        order_type: String::from_str(if take_profit { "TAKE_PROFIT_MARKET" } else { "STOP_MARKET" }),
        quantity,
        price: None,
        stop_price: Some(stop_price),
        time_in_force: None,
        reduce_only: Some(true),
    }
}

/// The reduce-only market order that flattens the position.
pub fn exit_order(close_side: Side, quantity: String) -> (o: OrderRequest)
    ensures
        o.symbol@ == SYMBOL@,
        o.side@ == close_side.spec_text(),
        o.order_type@ == "MARKET"@,
        o.quantity@ == quantity@,
        o.price is None,
        o.stop_price is None,
        o.time_in_force is None,
        o.reduce_only == Some(true),
{
    OrderRequest {
        symbol: String::from_str(SYMBOL),
        side: String::from_str(close_side.as_str()),
        order_type: String::from_str("MARKET"),
        quantity,
        price: None,
        stop_price: None,
        time_in_force: None,
        reduce_only: Some(true),
    }
}

// ---------------------------------------------------------------- laws

/// The evaluation mark never moves back, and an evaluation moves it to the
/// start of the candle being evaluated, later than any candle evaluated
/// before.
pub proof fn lemma_eval_mark_advances(phase: Phase, last_eval_ts: u64, now: u64)
    ensures
        tick_of(phase, last_eval_ts, now).1 >= last_eval_ts,
        tick_of(phase, last_eval_ts, now).0 == Step::Evaluate ==> {
            &&& tick_of(phase, last_eval_ts, now).1 == boundary_of(now as nat)
            &&& boundary_of(now as nat) > last_eval_ts
        },
{
}

/// Each closed 15m candle is evaluated at most once: after an evaluation at
/// `now1`, a turn at any `now2` in the same candle only waits.
pub proof fn lemma_one_evaluation_per_candle(last_eval_ts: u64, now1: u64, now2: u64)
    requires
        tick_of(Phase::Flat, last_eval_ts, now1).0 == Step::Evaluate,
        boundary_of(now2 as nat) == boundary_of(now1 as nat),
    ensures
        tick_of(Phase::Flat, tick_of(Phase::Flat, last_eval_ts, now1).1, now2).0 == Step::Wait,
{
}

/// The candle start is a multiple of 15 minutes at or before the clock
/// reading, less than 15 minutes before it.
pub proof fn lemma_candle_boundary(now: nat)
    ensures
        boundary_of(now) <= now,
        boundary_of(now) % (CANDLE_SECS as nat) == 0,
        now - boundary_of(now) < CANDLE_SECS,
        boundary_of(boundary_of(now)) == boundary_of(now),
{
    vstd::arithmetic::div_mod::lemma_fundamental_div_mod(now as int, 900);
    assert(boundary_of(now) == 900 * (now / 900));
    vstd::arithmetic::div_mod::lemma_mod_multiples_basic((now / 900) as int, 900);
}

/// Every reported status and every management turn moves the position only
/// along the allowed moves; placing an entry and confirming a fill do too.
pub proof fn lemma_moves_allowed(phase: Phase, status: Seq<char>, on_exchange: bool, exit_signal: bool, side: Side, id: u64)
    ensures
        may_follow(phase, fill_transition(phase, status).1),
        may_follow(phase, manage_transition(phase, on_exchange, exit_signal).1),
        may_follow(Phase::Flat, Phase::PendingEntry { side, order_id: id }),
        may_follow(Phase::PendingEntry { side, order_id: id }, Phase::Open { side, stop_order_id: id }),
{
}

/// Orders that protect or close a position always go on the side opposite
/// to the position's.
pub proof fn lemma_close_side_opposite(phase: Phase, status: Seq<char>, on_exchange: bool, exit_signal: bool)
    ensures
        fill_transition(phase, status).0 matches FillStep::Protect { close_side }
            ==> phase is PendingEntry && close_side == phase->PendingEntry_side.spec_opposite(),
        manage_transition(phase, on_exchange, exit_signal).0 matches ManageStep::Exit { close_side }
            ==> phase is Open && close_side == phase->Open_side.spec_opposite(),
        manage_transition(phase, on_exchange, exit_signal).0 matches ManageStep::Trail { close_side, stop_order_id }
            ==> phase is Open && close_side == phase->Open_side.spec_opposite()
                && stop_order_id == phase->Open_stop_order_id,
{
}

/// The exchange is the source of truth: an open position that the exchange
/// no longer shows is closed, whatever the exit signal says.
pub proof fn lemma_exchange_closes(side: Side, stop_order_id: u64, exit_signal: bool)
    ensures
        manage_transition(Phase::Open { side, stop_order_id }, false, exit_signal) == (ManageStep::Closed, Phase::Flat),
{
}

/// A status other than a fill, a cancellation or an expiry leaves the
/// resting entry order as it is.
pub proof fn lemma_other_status_waits(side: Side, order_id: u64, status: Seq<char>)
    requires
        status != "FILLED"@,
        status != "CANCELED"@,
        status != "EXPIRED"@,
    ensures
        fill_transition(Phase::PendingEntry { side, order_id }, status)
            == (FillStep::Waiting, Phase::PendingEntry { side, order_id }),
{
}

/// The week starts on a Sunday at midnight UTC, at or before the clock
/// reading and less than seven days before it.
pub proof fn lemma_week_start(now: int)
    ensures
        week_start_ms_of(now) <= now * 1000,
        now * 1000 - week_start_ms_of(now) < 7 * day_secs() * 1000,
        week_start_ms_of(now) % (day_secs() * 1000) == 0,
        weekday_from_sunday(week_start_ms_of(now) / (day_secs() * 1000)) == 0,
{
    let day = epoch_day(now);
    let dow = weekday_from_sunday(day);
    let sunday = day - dow;
    vstd::arithmetic::div_mod::lemma_fundamental_div_mod(now, 86400);
    assert(0 <= now % 86400 < 86400);
    assert(0 <= dow < 7);
    assert(week_start_ms_of(now) == sunday * 86_400_000);
    assert(day * 86400 <= now) by (nonlinear_arith)
        requires day == now / 86400, now == 86400 * (now / 86400) + now % 86400, now % 86400 >= 0;
    assert(now < (day + 1) * 86400) by (nonlinear_arith)
        requires day == now / 86400, now == 86400 * (now / 86400) + now % 86400, now % 86400 < 86400;
    assert(sunday * 86_400_000 <= now * 1000) by (nonlinear_arith)
        requires sunday <= day, day * 86400 <= now;
    assert(now * 1000 - sunday * 86_400_000 < 7 * 86_400_000) by (nonlinear_arith)
        requires sunday == day - dow, dow < 7, now < (day + 1) * 86400;
    vstd::arithmetic::div_mod::lemma_mod_multiples_basic(sunday, 86_400_000);
    vstd::arithmetic::div_mod::lemma_div_multiples_vanish(sunday, 86_400_000);
    assert((sunday * 86_400_000) / 86_400_000 == sunday) by {
        assert(sunday * 86_400_000 == 86_400_000 * sunday) by (nonlinear_arith);
    }
    assert((sunday + 4) % 7 == 0) by {
        vstd::arithmetic::div_mod::lemma_fundamental_div_mod(day + 4, 7);
        assert(sunday + 4 == 7 * ((day + 4) / 7)) ;
        vstd::arithmetic::div_mod::lemma_mod_multiples_basic((day + 4) / 7, 7);
        assert(7 * ((day + 4) / 7) == ((day + 4) / 7) * 7) by (nonlinear_arith);
    }
}


/// A level never confirmed by a 4h candle stays unconfirmed through an
/// unconfirmed tap, and is not reported high-probability however often it
/// is tapped.
pub proof fn lemma_unconfirmed_never_high_prob(book: Map<u64, TapRecord>, key: u64)
    requires
        can_tap(book, key),
        !record_at(book, key).confirmed_4h,
    ensures
        !after_tap(record_at(book, key), false).confirmed_4h,
        !after_tap(record_at(book, key), false).spec_is_high_prob(),
        after_tap(record_at(book, key), false).taps == record_at(book, key).taps + 1,
{
}

/// Whatever the side and order ids, the loop checks the fill of a resting
/// entry and manages an open position on every turn, without touching the
/// evaluation mark; when flat it evaluates exactly when a later 15m candle
/// has started, and then marks that candle.
pub proof fn lemma_tick_dispatch(side: Side, id: u64, last_eval_ts: u64, now: u64)
    ensures
        tick_of(Phase::Open { side, stop_order_id: id }, last_eval_ts, now) == (Step::Manage, last_eval_ts),
        tick_of(Phase::PendingEntry { side, order_id: id }, last_eval_ts, now) == (Step::CheckFill, last_eval_ts),
        (tick_of(Phase::Flat, last_eval_ts, now).0 == Step::Evaluate)
            == (now - now % 900 > last_eval_ts),
        tick_of(Phase::Flat, last_eval_ts, now).0 == Step::Evaluate
            ==> tick_of(Phase::Flat, last_eval_ts, now).1 == now - now % 900,
        tick_of(Phase::Flat, last_eval_ts, now).0 != Step::Evaluate
            ==> tick_of(Phase::Flat, last_eval_ts, now) == (Step::Wait, last_eval_ts),
{
}

/// Whatever the side and order id of the resting entry: a fill asks for
/// protective orders on the other side and keeps the entry pending until
/// they rest; a cancellation or expiry leaves the engine flat.
pub proof fn lemma_fill_statuses(side: Side, order_id: u64)
    ensures
        fill_transition(Phase::PendingEntry { side, order_id }, "FILLED"@) == (
            FillStep::Protect { close_side: if side == Side::Buy { Side::Sell } else { Side::Buy } },
            Phase::PendingEntry { side, order_id },
        ),
        fill_transition(Phase::PendingEntry { side, order_id }, "CANCELED"@) == (FillStep::Abandoned, Phase::Flat),
        fill_transition(Phase::PendingEntry { side, order_id }, "EXPIRED"@) == (FillStep::Abandoned, Phase::Flat),
{
    reveal_strlit("FILLED");
    reveal_strlit("CANCELED");
    reveal_strlit("EXPIRED");
    assert("CANCELED"@ != "FILLED"@) by {
        assert("CANCELED"@.len() != "FILLED"@.len());
    }
    assert("EXPIRED"@ != "FILLED"@) by {
        assert("EXPIRED"@[0] != "FILLED"@[0]);
    }
}

/// Whatever the side and stop order of an open position: with the position
/// still on the exchange, the exit signal closes it with an order on the
/// other side and leaves the engine flat; without the signal the stop
/// order is kept and trailed on the other side; a position gone from the
/// exchange leaves the engine flat.
pub proof fn lemma_manage_outcomes(side: Side, stop_order_id: u64, exit_signal: bool)
    ensures
        manage_transition(Phase::Open { side, stop_order_id }, true, true) == (
            ManageStep::Exit { close_side: if side == Side::Buy { Side::Sell } else { Side::Buy } },
            Phase::Flat,
        ),
        manage_transition(Phase::Open { side, stop_order_id }, true, false) == (
            ManageStep::Trail { close_side: if side == Side::Buy { Side::Sell } else { Side::Buy }, stop_order_id },
            Phase::Open { side, stop_order_id },
        ),
        manage_transition(Phase::Open { side, stop_order_id }, false, exit_signal) == (ManageStep::Closed, Phase::Flat),
{
}

} // verus!
