use hft_control::fixed::ONE;
use hft_control::pricing::{
    calculate_mid_price, is_valid_depth, DepthView, MicroPriceCalculator, OrderBookImbalance,
    SpreadCalculator,
};

const CENT: i64 = ONE / 100;

fn book(bid: Vec<i64>, ask: Vec<i64>) -> DepthView {
    DepthView { best_bid_tick: 10_000, best_ask_tick: 10_002, tick_size: CENT, bid_qty: bid, ask_qty: ask }
}

#[test]
fn reservation_equals_mid_without_inventory_or_volatility() {
    let d = book(vec![ONE], vec![ONE]);
    let mid = calculate_mid_price(&d);
    assert_eq!(mid, 10_001_000_000);
    let calc = SpreadCalculator::new(ONE / 1000);
    assert_eq!(calc.calculate_reservation_price(mid, 0, 0), 10_001_000_000);
}

#[test]
fn reservation_with_long_inventory_is_lowered() {
    let d = book(vec![ONE], vec![ONE]);
    let mid = calculate_mid_price(&d);
    let calc = SpreadCalculator::new(ONE / 1000);
    // 100.01 - 5 * 0.001 * 10^2 = 99.51
    assert_eq!(calc.calculate_reservation_price(mid, 5 * ONE, 10 * ONE), 9_951_000_000);
    assert_eq!(calc.checked_reservation_price(mid, 5 * ONE, 10 * ONE), Some(9_951_000_000));
}

#[test]
fn reservation_decreases_with_inventory() {
    let calc = SpreadCalculator::new(ONE / 1000);
    let mid = 10_001_000_000;
    let vol = 10 * ONE;
    let short = calc.calculate_reservation_price(mid, -2 * ONE, vol);
    let flat = calc.calculate_reservation_price(mid, 0, vol);
    let long = calc.calculate_reservation_price(mid, 2 * ONE, vol);
    assert!(short > flat && flat > long);
    assert_eq!(short, 10_021_000_000);
    assert_eq!(long, 9_981_000_000);
}

#[test]
fn checked_reservation_rejects_overflow() {
    let calc = SpreadCalculator::new(i64::MAX);
    assert_eq!(calc.checked_reservation_price(0, i64::MAX, i64::MAX), None);
}

#[test]
fn imbalance_is_zero_for_equal_volumes() {
    let d = book(vec![2 * ONE, ONE], vec![ONE, 2 * ONE]);
    assert_eq!(OrderBookImbalance::new(2).calculate(&d), 0);
}

#[test]
fn imbalance_is_one_without_asks_and_minus_one_without_bids() {
    assert_eq!(OrderBookImbalance::new(5).calculate(&book(vec![ONE], vec![])), ONE);
    assert_eq!(OrderBookImbalance::new(5).calculate(&book(vec![], vec![ONE])), -ONE);
    assert_eq!(OrderBookImbalance::new(5).calculate(&book(vec![], vec![])), 0);
}

#[test]
fn imbalance_ratio_value() {
    let d = book(vec![3 * ONE, 0, -ONE], vec![ONE]);
    assert_eq!(OrderBookImbalance::new(3).calculate(&d), ONE / 2);
    let d = book(vec![ONE], vec![3 * ONE]);
    assert_eq!(OrderBookImbalance::new(3).calculate(&d), -ONE / 2);
}

#[test]
fn imbalance_counts_only_the_requested_levels() {
    let d = book(vec![ONE, 5 * ONE], vec![ONE]);
    assert_eq!(OrderBookImbalance::new(1).calculate(&d), 0);
}

#[test]
fn micro_price_leans_away_from_heavy_side() {
    let d = book(vec![3 * ONE], vec![ONE]);
    assert_eq!(MicroPriceCalculator::new(1).calculate(&d), 10_001_500_000);
}

#[test]
fn micro_price_falls_back_to_mid() {
    let d = book(vec![], vec![0]);
    assert_eq!(MicroPriceCalculator::new(4).calculate(&d), 10_001_000_000);
}

#[test]
fn unquoted_book_is_invalid() {
    let mut d = book(vec![ONE], vec![ONE]);
    assert!(is_valid_depth(&d));
    d.best_ask_tick = i64::MAX;
    assert!(!is_valid_depth(&d));
    assert_eq!(MicroPriceCalculator::new(1).calculate(&d), 0);
    assert_eq!(OrderBookImbalance::new(1).calculate(&d), 0);
    d.best_ask_tick = 10_002;
    d.best_bid_tick = i64::MIN;
    assert!(!is_valid_depth(&d));
}

#[test]
fn imbalance_rises_as_ask_volume_falls() {
    let mut last = -ONE - 1;
    for ask in [8, 4, 2, 1, 0] {
        let d = book(vec![2 * ONE], vec![ask * ONE]);
        let v = OrderBookImbalance::new(1).calculate(&d);
        assert!(v > last);
        last = v;
    }
    assert_eq!(last, ONE);
}
