use hft_control::backtest::{BacktestRunner, PrintDepthRunner, SessionError};
use hft_control::prediction::{classify_prediction, PredictionSignal};
use hft_control::display::{spread_figures, OrderBookDisplay, OrderbookView};
use hft_control::fixed::ONE;
use hft_control::pricing::DepthView;
use hft_control::telemetry::BookLevel;

fn depth() -> DepthView {
    DepthView {
        best_bid_tick: 10_000,
        best_ask_tick: 10_002,
        tick_size: ONE / 100,
        bid_qty: vec![ONE, 0, 0, 2 * ONE, 3 * ONE],
        ask_qty: vec![0, 4 * ONE],
    }
}

#[test]
fn display_collects_the_first_non_empty_levels() {
    let d = OrderBookDisplay::new(1, 2);
    let (asks, bids) = d.collect_levels(&depth());
    assert_eq!(asks, vec![BookLevel { price: 10_003_000_000, quantity: 4 * ONE }]);
    assert_eq!(
        bids,
        vec![
            BookLevel { price: 10_000_000_000, quantity: ONE },
            BookLevel { price: 9_997_000_000, quantity: 2 * ONE },
        ]
    );
}

#[test]
fn display_of_unquoted_side_is_empty() {
    let mut dv = depth();
    dv.best_ask_tick = i64::MAX;
    let (asks, bids) = OrderBookDisplay::new(3, 3).collect_levels(&dv);
    assert!(asks.is_empty());
    assert_eq!(bids.len(), 3);
    assert_eq!(spread_figures(&dv), None);
}

#[test]
fn spread_line() {
    // spread 0.02 on 100.00 is 0.02 %
    assert_eq!(spread_figures(&depth()), Some((2_000_000, 2_000_000)));
}

#[test]
fn orderbook_view_rows() {
    let mut v = OrderbookView::new(10);
    assert_eq!(v.depth_levels(), 10);
    assert_eq!(v.visible_rows(4, 7), 4);
    v.set_depth_levels(3);
    assert_eq!(v.depth_levels(), 3);
    assert_eq!(v.visible_rows(4, 7), 3);
    assert_eq!(v.visible_rows(8, 2), 2);
}

#[test]
fn sessions_need_files() {
    let r = PrintDepthRunner::new(vec![], OrderBookDisplay::new(5, 5));
    assert!(matches!(r, Err(SessionError::NoDataFiles)));
    let p = PrintDepthRunner::new(vec!["a.npz".to_string()], OrderBookDisplay::new(5, 5)).unwrap();
    assert_eq!(p.data_files, vec!["a.npz".to_string()]);
    let b = BacktestRunner::new("b.npz".to_string(), OrderBookDisplay::new(2, 3));
    assert_eq!(b.data_file, "b.npz");
    assert_eq!(b.display.bid_depth_levels, 3);
}

#[test]
fn predictions_are_classified_by_threshold() {
    let th = ONE / 1000;
    assert_eq!(classify_prediction(2 * th, th), PredictionSignal::Up);
    assert_eq!(classify_prediction(-2 * th, th), PredictionSignal::Down);
    assert_eq!(classify_prediction(th, th), PredictionSignal::Neutral);
    assert_eq!(classify_prediction(-th, th), PredictionSignal::Neutral);
}
