use vp_trader::strategy::engine::{
    candidate_levels, candle_boundary, entry_order, exit_order, has_enough_history,
    protective_order, week_start_ms, EngineState, FillStep, ManageStep, Phase, Side, Step, TapBook,
    TapRecord,
};
use vp_trader::strategy::state::{VpLevel, VpLevelKind};
use vp_trader::tradelog::now_s;

#[test]
fn candle_boundary_floors_to_quarter_hour() {
    assert_eq!(candle_boundary(0), 0);
    assert_eq!(candle_boundary(899), 0);
    assert_eq!(candle_boundary(900), 900);
    assert_eq!(candle_boundary(1000), 900);
    assert_eq!(candle_boundary(1_700_000_123), 1_700_000_100);
}

#[test]
fn week_starts_sunday_midnight_utc() {
    // 1970-01-01 was a Thursday: its week began on Sunday 1969-12-28.
    assert_eq!(week_start_ms(0), -4 * 86_400_000);
    // Wednesday 2024-01-10 12:00 UTC -> Sunday 2024-01-07 00:00 UTC.
    assert_eq!(week_start_ms(1_704_888_000), 1_704_585_600_000);
    // A Sunday midnight is its own week start.
    assert_eq!(week_start_ms(1_704_585_600), 1_704_585_600_000);
    // One second before it belongs to the previous week.
    assert_eq!(week_start_ms(1_704_585_599), 1_704_585_600_000 - 7 * 86_400_000);
    // Before the epoch.
    assert_eq!(week_start_ms(-1), -4 * 86_400_000);
}

#[test]
fn week_start_at_the_ends_of_the_clock_range() {
    assert_eq!(week_start_ms(-8_334_601_315_200), -8_334_601_574_400_000);
    assert_eq!(week_start_ms(8_210_266_876_799), 8_210_266_704_000_000);
}

#[test]
fn tick_evaluates_once_per_candle() {
    let mut st = EngineState::new();
    assert_eq!(st.tick(1_000), Step::Evaluate);
    assert_eq!(st.last_eval_ts, 900);
    assert_eq!(st.tick(1_500), Step::Wait);
    assert_eq!(st.tick(1_799), Step::Wait);
    assert_eq!(st.tick(1_800), Step::Evaluate);
    assert_eq!(st.last_eval_ts, 1_800);
}

#[test]
fn tick_dispatches_by_phase() {
    let mut st = EngineState::new();
    st.enter(Side::Buy, 11);
    assert_eq!(st.tick(5_000), Step::CheckFill);
    assert_eq!(st.last_eval_ts, 0);
    st.confirm_fill(22);
    assert_eq!(st.phase, Phase::Open { side: Side::Buy, stop_order_id: 22 });
    assert_eq!(st.tick(5_000), Step::Manage);
}

#[test]
fn order_status_drives_entry() {
    let mut st = EngineState::new();
    assert_eq!(st.on_order_status("FILLED"), FillStep::Idle);
    st.enter(Side::Sell, 7);
    assert_eq!(st.on_order_status("NEW"), FillStep::Waiting);
    assert_eq!(st.on_order_status(""), FillStep::Waiting);
    assert_eq!(st.on_order_status("PARTIALLY_FILLED"), FillStep::Waiting);
    assert_eq!(st.on_order_status("FILLED"), FillStep::Protect { close_side: Side::Buy });
    assert_eq!(st.phase, Phase::PendingEntry { side: Side::Sell, order_id: 7 });
    st.confirm_fill(8);
    assert_eq!(st.phase, Phase::Open { side: Side::Sell, stop_order_id: 8 });
}

#[test]
fn cancelled_or_expired_entry_goes_flat() {
    let mut st = EngineState::new();
    st.enter(Side::Buy, 1);
    assert_eq!(st.on_order_status("CANCELED"), FillStep::Abandoned);
    assert_eq!(st.phase, Phase::Flat);
    st.enter(Side::Buy, 2);
    assert_eq!(st.on_order_status("EXPIRED"), FillStep::Abandoned);
    assert_eq!(st.phase, Phase::Flat);
}

#[test]
fn manage_follows_the_exchange() {
    let mut st = EngineState::new();
    assert_eq!(st.manage(true, true), ManageStep::Idle);
    st.adopt_position(Side::Buy);
    assert_eq!(st.phase, Phase::Open { side: Side::Buy, stop_order_id: 0 });
    assert_eq!(
        st.manage(true, false),
        ManageStep::Trail { close_side: Side::Sell, stop_order_id: 0 }
    );
    st.replace_stop(99);
    assert_eq!(st.phase, Phase::Open { side: Side::Buy, stop_order_id: 99 });
    assert_eq!(st.manage(false, true), ManageStep::Closed);
    assert_eq!(st.phase, Phase::Flat);
    st.adopt_position(Side::Sell);
    assert_eq!(st.manage(true, true), ManageStep::Exit { close_side: Side::Buy });
    assert_eq!(st.phase, Phase::Flat);
}

#[test]
fn taps_count_and_confirmation_sticks() {
    let mut book = TapBook::new();
    assert_eq!(book.get(64_000), None);
    assert!(!book.record_tap(64_000, true));
    assert_eq!(book.get(64_000), Some(TapRecord { taps: 1, confirmed_4h: true }));
    assert!(book.record_tap(64_000, false));
    assert_eq!(book.get(64_000), Some(TapRecord { taps: 2, confirmed_4h: true }));
    assert!(!book.record_tap(65_000, false));
    assert!(!book.record_tap(65_000, false));
    assert_eq!(book.get(65_000), Some(TapRecord { taps: 2, confirmed_4h: false }));
    assert!(book.record_tap(65_000, true));
    assert_eq!(book.get(64_000), Some(TapRecord { taps: 2, confirmed_4h: true }));
}

#[test]
fn engine_state_holds_taps() {
    let mut st = EngineState::new();
    assert!(!st.taps.record_tap(1, false));
    assert_eq!(st.taps.get(1), Some(TapRecord { taps: 1, confirmed_4h: false }));
}

#[test]
fn vp_level_taps() {
    let mut level = VpLevel { price_key: 64_000, kind: VpLevelKind::PoC, taps: 0, confirmed_by_4h: false };
    assert!(!level.is_high_prob());
    level.record_tap(true);
    assert_eq!(level.taps, 1);
    assert!(level.confirmed_by_4h);
    assert!(!level.is_high_prob());
    level.record_tap(false);
    assert_eq!(level.taps, 2);
    assert!(level.confirmed_by_4h);
    assert!(level.is_high_prob());
    assert_eq!(level.kind, VpLevelKind::PoC);
}

#[test]
fn level_names() {
    assert_eq!(VpLevelKind::PoC.name(), "PoC");
    assert_eq!(VpLevelKind::VAH.name(), "VAH");
    assert_eq!(VpLevelKind::VAL.name(), "VAL");
}

#[test]
fn candidates_above_and_below_poc() {
    assert_eq!(candidate_levels(true), vec![(VpLevelKind::PoC, true), (VpLevelKind::VAH, false)]);
    assert_eq!(candidate_levels(false), vec![(VpLevelKind::PoC, false), (VpLevelKind::VAL, true)]);
}

#[test]
fn history_gate() {
    assert!(has_enough_history(150, 24));
    assert!(!has_enough_history(149, 24));
    assert!(!has_enough_history(150, 23));
    assert!(has_enough_history(399, 200));
}

#[test]
fn sides() {
    assert_eq!(Side::from_long(true), Side::Buy);
    assert_eq!(Side::from_long(false), Side::Sell);
    assert!(Side::Buy.is_long());
    assert!(!Side::Sell.is_long());
    assert_eq!(Side::Buy.opposite(), Side::Sell);
    assert_eq!(Side::Sell.opposite().opposite(), Side::Sell);
    assert_eq!(Side::Buy.as_str(), "BUY");
    assert_eq!(Side::Sell.as_str(), "SELL");
    assert_eq!(Side::parse("BUY"), Side::Buy);
    assert_eq!(Side::parse("SELL"), Side::Sell);
    assert_eq!(Side::parse("buy"), Side::Sell);
}

#[test]
fn orders_the_engine_places() {
    let e = entry_order(Side::Buy, "0.005".to_string(), "64000".to_string());
    assert_eq!(e.symbol, "BTCUSDT");
    assert_eq!(e.side, "BUY");
    assert_eq!(e.order_type, "LIMIT");
    assert_eq!(e.quantity, "0.005");
    assert_eq!(e.price.as_deref(), Some("64000"));
    assert_eq!(e.stop_price, None);
    assert_eq!(e.time_in_force.as_deref(), Some("GTC"));
    assert_eq!(e.reduce_only, None);

    let sl = protective_order(Side::Sell, "0.005".to_string(), "63500".to_string(), false);
    assert_eq!(sl.side, "SELL");
    assert_eq!(sl.order_type, "STOP_MARKET");
    assert_eq!(sl.stop_price.as_deref(), Some("63500"));
    assert_eq!(sl.price, None);
    assert_eq!(sl.reduce_only, Some(true));

    let tp = protective_order(Side::Sell, "0.005".to_string(), "66000".to_string(), true);
    assert_eq!(tp.order_type, "TAKE_PROFIT_MARKET");
    assert_eq!(tp.reduce_only, Some(true));

    let x = exit_order(Side::Buy, "0.005".to_string());
    assert_eq!(x.side, "BUY");
    assert_eq!(x.order_type, "MARKET");
    assert_eq!(x.price, None);
    assert_eq!(x.stop_price, None);
    assert_eq!(x.time_in_force, None);
    assert_eq!(x.reduce_only, Some(true));
}

#[test]
fn now_s_reads_seconds() {
    let t = now_s();
    assert!(t > 1_600_000_000);
    assert!(t < 100_000_000_000);
}
