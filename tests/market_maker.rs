use hft_control::fixed::ONE;
use hft_control::market_maker::{MarketMaker, MarketMakerConfig, OrderReport, OrderStatus, Quote};
use hft_control::order_tracker::OrderSide;
use hft_control::pricing::DepthView;
use hft_control::telemetry::{extract_orderbook, BookLevel, StrategyState};

const CENT: i64 = ONE / 100;

fn book() -> DepthView {
    DepthView {
        best_bid_tick: 10_000,
        best_ask_tick: 10_002,
        tick_size: CENT,
        bid_qty: vec![10 * ONE],
        ask_qty: vec![10 * ONE],
    }
}

fn quote(id: u64, side: OrderSide, layer: usize, price: i128, tick: i128, qty: i64) -> Option<Quote> {
    Some(Quote { order_id: id, side, layer, price, price_tick: tick, qty })
}

#[test]
fn default_config_values() {
    let c = MarketMakerConfig::default();
    assert_eq!(c.gamma, ONE / 1000);
    assert_eq!(c.max_inventory, 5 * ONE);
    assert_eq!(c.order_size, ONE / 100);
    assert_eq!(c.depth_levels, 20);
    assert_eq!(c.order_layers, 2);
    assert_eq!(c.fixed_spread_ticks, 10);
}

#[test]
fn initial_orders_are_layered_around_the_reservation() {
    let mm = MarketMaker::new(MarketMakerConfig::default());
    let q = mm.place_initial_orders(&book());
    assert_eq!(
        q,
        vec![
            quote(0, OrderSide::Buy, 0, 9_996_000_000, 9_996, 1_000_000),
            quote(1, OrderSide::Sell, 0, 10_006_000_000, 10_006, 1_000_000),
            quote(2, OrderSide::Buy, 1, 9_995_000_000, 9_995, 666_666),
            quote(3, OrderSide::Sell, 1, 10_007_000_000, 10_007, 666_666),
        ]
    );
}

#[test]
fn imbalance_shifts_quotes() {
    let mm = MarketMaker::new(MarketMakerConfig { order_layers: 1, ..MarketMakerConfig::default() });
    let mut d = book();
    d.ask_qty = vec![];
    // micro-price is the best ask; skew is a tenth of the half spread
    let q = mm.place_initial_orders(&d);
    assert_eq!(q[0], quote(0, OrderSide::Buy, 0, 10_002_000_000 - 5_000_000 - 500_000, 9_997, 1_000_000));
    assert_eq!(q[1], quote(1, OrderSide::Sell, 0, 10_002_000_000 + 5_000_000 + 500_000, 10_008, 1_000_000));
}

#[test]
fn refill_accounts_fills_and_requotes_vacant_slots() {
    let mut mm = MarketMaker::new(MarketMakerConfig::default());
    let d = book();
    for q in mm.place_initial_orders(&d).iter().flatten() {
        mm.confirm_quote(q);
    }
    let reports = vec![
        OrderReport { order_id: 0, status: OrderStatus::Filled, price_tick: 9_996, qty: 1_000_000 },
        OrderReport { order_id: 1, status: OrderStatus::Active, price_tick: 10_006, qty: 1_000_000 },
        OrderReport { order_id: 2, status: OrderStatus::Canceled, price_tick: 9_995, qty: 666_666 },
    ];
    let mut inventory: i64 = 0;
    let mut pnl: i128 = 0;
    let q = mm.check_and_refill_orders(&d, &reports, &mut inventory, &mut pnl);
    assert_eq!(inventory, 1_000_000);
    assert_eq!(pnl, -99_960_000 + 9_996);
    assert_eq!(mm.order_tracker.get_stats(), (1, 1_000_000, 0, 3));
    assert_eq!(
        q,
        vec![
            quote(0, OrderSide::Buy, 0, 9_996_000_000, 9_996, 999_000),
            None,
            quote(2, OrderSide::Buy, 1, 9_995_000_000, 9_995, 666_000),
            quote(3, OrderSide::Sell, 1, 10_007_000_000, 10_007, 666_000),
        ]
    );
}

#[test]
fn sell_fill_earns_notional_and_rebate() {
    let mut mm = MarketMaker::new(MarketMakerConfig { order_layers: 1, ..MarketMakerConfig::default() });
    let d = book();
    let reports = vec![
        OrderReport { order_id: 0, status: OrderStatus::Active, price_tick: 9_996, qty: ONE },
        OrderReport { order_id: 1, status: OrderStatus::Filled, price_tick: 10_006, qty: ONE },
    ];
    let mut inventory: i64 = 0;
    let mut pnl: i128 = 0;
    let q = mm.check_and_refill_orders(&d, &reports, &mut inventory, &mut pnl);
    assert_eq!(inventory, -ONE);
    assert_eq!(pnl, 10_006_000_000 + 1_000_600);
    assert_eq!(q[0], None);
    assert!(q[1].is_some());
}

#[test]
fn volatility_window_moves_the_reservation() {
    let mut mm = MarketMaker::new(MarketMakerConfig { order_layers: 1, ..MarketMakerConfig::default() });
    mm.record_mid_price(99 * ONE);
    mm.record_mid_price(101 * ONE);
    assert_eq!(mm.risk_manager.calculate_volatility(), ONE);
    let d = book();
    let mut inventory: i64 = 0;
    let mut pnl: i128 = 0;
    let reports = vec![OrderReport { order_id: 0, status: OrderStatus::Filled, price_tick: 9_996, qty: 10 * ONE }];
    let q = mm.check_and_refill_orders(&d, &reports, &mut inventory, &mut pnl);
    // reservation 100.01 - 10 * 0.001 * 1 = 100.00, size 0.01 * (1 - 1 / 2)
    assert_eq!(q[0], quote(0, OrderSide::Buy, 0, 9_995_000_000, 9_995, 500_000));
    assert_eq!(q[1], quote(1, OrderSide::Sell, 0, 10_005_000_000, 10_005, 500_000));
}

#[test]
fn strategy_state_figures() {
    let mut s = StrategyState::new();
    assert_eq!(s.win_rate(), 0);
    assert_eq!(s.fill_ratio(), 0);
    s.realized_pnl = 150 * ONE;
    s.unrealized_pnl = -50 * ONE;
    s.num_trades = 4;
    s.winning_trades = 3;
    s.total_orders = 8;
    s.total_fills = 2;
    assert_eq!(s.equity(10_000 * ONE), 10_100 * ONE as i128);
    assert_eq!(s.win_rate(), 75 * ONE as u128);
    assert_eq!(s.fill_ratio(), 25 * ONE as u128);
}

#[test]
fn orderbook_levels_skip_empty_ones() {
    let d = DepthView {
        best_bid_tick: 10_000,
        best_ask_tick: 10_002,
        tick_size: CENT,
        bid_qty: vec![ONE, 0, 2 * ONE],
        ask_qty: vec![3 * ONE],
    };
    let (bids, asks) = extract_orderbook(&d, 5);
    assert_eq!(
        bids,
        vec![
            BookLevel { price: 10_000_000_000, quantity: ONE },
            BookLevel { price: 9_998_000_000, quantity: 2 * ONE },
        ]
    );
    assert_eq!(asks, vec![BookLevel { price: 10_002_000_000, quantity: 3 * ONE }]);
    let unquoted = DepthView { best_bid_tick: i64::MIN, ..d };
    assert!(extract_orderbook(&unquoted, 5).0.is_empty());
}
