use hft_control::order_tracker::{OrderSide, OrderTracker};

#[test]
fn register_then_fill_returns_the_record() {
    let mut t = OrderTracker::new();
    t.register_order(3, OrderSide::Sell, 10_006_000_000, 1_000_000, 1);
    assert!(t.has_order(3));
    let before = t.get_stats().0;
    let info = t.mark_filled(3).unwrap();
    assert_eq!(info.order_id, 3);
    assert_eq!(info.side, OrderSide::Sell);
    assert_eq!(info.qty, 1_000_000);
    assert_eq!(info.price, 10_006_000_000);
    assert_eq!(info.layer, 1);
    assert_eq!(t.get_stats().0, before + 1);
    assert!(!t.has_order(3));
}

#[test]
fn fill_of_unknown_order_changes_nothing() {
    let mut t = OrderTracker::new();
    assert!(t.mark_filled(9).is_none());
    assert_eq!(t.get_stats(), (0, 0, 0, 0));
}

#[test]
fn resubmission_after_fill_reuses_the_id() {
    let mut t = OrderTracker::new();
    t.register_order(0, OrderSide::Buy, 9_996_000_000, 1_000_000, 0);
    t.mark_filled(0).unwrap();
    t.register_order(0, OrderSide::Buy, 9_995_000_000, 999_000, 0);
    assert!(t.has_order(0));
    assert_eq!(t.get_stats().3, 1);
    let info = t.mark_filled(0).unwrap();
    assert_eq!(info.price, 9_995_000_000);
    assert_eq!(info.qty, 999_000);
    assert_eq!(t.get_stats(), (2, 1_999_000, 0, 0));
}

#[test]
fn registering_twice_replaces_the_record() {
    let mut t = OrderTracker::new();
    t.register_order(1, OrderSide::Sell, 5, 10, 0);
    t.register_order(1, OrderSide::Sell, 6, 20, 0);
    assert_eq!(t.get_stats().3, 1);
    assert_eq!(t.mark_filled(1).unwrap().qty, 20);
}

#[test]
fn stats_tally_volume_per_side() {
    let mut t = OrderTracker::new();
    t.register_order(0, OrderSide::Buy, 1, 100, 0);
    t.register_order(1, OrderSide::Sell, 1, 40, 0);
    t.register_order(2, OrderSide::Buy, 1, 5, 1);
    t.mark_filled(0);
    t.mark_filled(1);
    assert_eq!(t.get_stats(), (2, 100, 40, 1));
    t.clear_all();
    assert_eq!(t.get_stats(), (2, 100, 40, 0));
    assert!(!t.has_order(2));
}
