use hft_control::fixed::ONE;
use hft_control::market_maker::Quote;
use hft_control::order_manager::OrderManager;
use hft_control::order_tracker::OrderSide;

const TICK: i64 = ONE / 100;
const RESERVATION: i64 = 10_001_000_000;
const HALF_SPREAD: i64 = 5_000_000;

fn quote(id: u64, side: OrderSide, layer: usize, price: i128, tick: i128, qty: i64) -> Quote {
    Quote { order_id: id, side, layer, price, price_tick: tick, qty }
}

#[test]
fn layered_orders_are_skewed_by_imbalance() {
    let m = OrderManager::new(2, 1);
    let q = m.place_layered_orders(TICK, RESERVATION, HALF_SPREAD, 1_000_000, ONE / 2);
    assert_eq!(
        q,
        vec![
            quote(0, OrderSide::Buy, 0, 9_996_500_000, 9_997, 1_000_000),
            quote(1, OrderSide::Sell, 0, 10_005_500_000, 10_006, 1_000_000),
            quote(2, OrderSide::Buy, 1, 9_995_500_000, 9_996, 666_666),
            quote(3, OrderSide::Sell, 1, 10_006_500_000, 10_007, 666_666),
        ]
    );
}

#[test]
fn cancel_covers_every_slot() {
    assert_eq!(OrderManager::new(3, 1).cancel_all_orders(), vec![0, 1, 2, 3, 4, 5]);
    assert!(OrderManager::new(0, 1).cancel_all_orders().is_empty());
}

#[test]
fn long_inventory_quotes_only_sells() {
    let m = OrderManager::new(2, 1);
    let q = m.place_sided_orders(TICK, RESERVATION, HALF_SPREAD, 1_000_000, 6 * ONE, 5 * ONE);
    assert_eq!(
        q,
        vec![
            quote(1, OrderSide::Sell, 0, 10_006_000_000, 10_006, 1_000_000),
            quote(3, OrderSide::Sell, 1, 10_007_000_000, 10_007, 666_666),
        ]
    );
}

#[test]
fn short_inventory_quotes_only_buys() {
    let m = OrderManager::new(2, 2);
    let q = m.place_sided_orders(TICK, RESERVATION, HALF_SPREAD, 1_000_000, -6 * ONE, 5 * ONE);
    assert_eq!(
        q,
        vec![
            quote(0, OrderSide::Buy, 0, 9_996_000_000, 9_996, 1_000_000),
            quote(2, OrderSide::Buy, 1, 9_994_000_000, 9_994, 666_666),
        ]
    );
}

#[test]
fn balanced_inventory_quotes_both_sides() {
    let m = OrderManager::new(1, 1);
    let q = m.place_sided_orders(TICK, RESERVATION, HALF_SPREAD, 1_000_000, 5 * ONE, 5 * ONE);
    assert_eq!(
        q,
        vec![
            quote(0, OrderSide::Buy, 0, 9_996_000_000, 9_996, 1_000_000),
            quote(1, OrderSide::Sell, 0, 10_006_000_000, 10_006, 1_000_000),
        ]
    );
}
