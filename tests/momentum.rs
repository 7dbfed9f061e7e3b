use hft_control::fixed::ONE;
use hft_control::momentum::{MomentumIndicator, SignalType};

#[test]
fn test_momentum_calculation() {
    let mut indicator = MomentumIndicator::new(5, ONE / 100);

    let prices = vec![100 * ONE, 101 * ONE, 102 * ONE, 103 * ONE, 104 * ONE, 105 * ONE];

    for price in prices {
        indicator.update(price);
    }

    let momentum = indicator.calculate_momentum().unwrap();
    assert!((momentum - 5 * ONE as i128 / 100).abs() < ONE as i128 / 10_000); // (105-100)/100 = 0.05
}

#[test]
fn test_signal_generation() {
    let mut indicator = MomentumIndicator::new(5, ONE / 100);

    // Upward trend
    for i in 0..6 {
        indicator.update(100 * ONE + i * 2 * ONE);
    }

    let signal = indicator.generate_signal();
    assert_eq!(signal, SignalType::Long);
}

#[test]
fn momentum_needs_two_prices() {
    let mut m = MomentumIndicator::new(3, ONE / 100);
    assert!(m.calculate_momentum().is_none());
    assert_eq!(m.generate_signal(), SignalType::Neutral);
    assert_eq!(m.get_momentum(), 0);
    assert!(m.calculate_average_return().is_none());
    m.update(100 * ONE);
    assert!(m.calculate_momentum().is_none());
    assert!(!m.is_ready());
}

#[test]
fn window_keeps_lookback_plus_one_prices() {
    let mut m = MomentumIndicator::new(2, ONE / 100);
    for p in [100, 200, 110, 121] {
        m.update(p * ONE);
    }
    // window [200, 110, 121]
    assert!(m.is_ready());
    assert_eq!(m.calculate_momentum(), Some(-39_500_000));
    assert_eq!(m.generate_signal(), SignalType::Short);
    // returns of the last two steps: -45% and +10%
    assert_eq!(m.calculate_average_return(), Some(-17_500_000));
}

#[test]
fn small_moves_are_neutral() {
    let mut m = MomentumIndicator::new(5, ONE / 100);
    m.update(100 * ONE);
    m.update(100 * ONE + ONE / 2);
    assert_eq!(m.get_momentum(), 500_000);
    assert_eq!(m.generate_signal(), SignalType::Neutral);
}

use hft_control::momentum::{
    calculate_position_metrics, momentum_action, should_close_position, PositionState, TradeAction,
};

#[test]
fn stop_loss_and_take_profit_close_positions() {
    let stop = ONE / 100;
    let take = 2 * ONE / 100;
    assert!(should_close_position(PositionState::Long, 100 * ONE, 989 * ONE / 10, stop, take));
    assert!(!should_close_position(PositionState::Long, 100 * ONE, 101 * ONE, stop, take));
    assert!(should_close_position(PositionState::Long, 100 * ONE, 102 * ONE, stop, take));
    assert!(should_close_position(PositionState::Short, 100 * ONE, 1015 * ONE / 10, stop, take));
    assert!(should_close_position(PositionState::Short, 100 * ONE, 98 * ONE, stop, take));
    assert!(!should_close_position(PositionState::Short, 100 * ONE, 995 * ONE / 10, stop, take));
    assert!(!should_close_position(PositionState::Flat, 100 * ONE, 50 * ONE, stop, take));
    assert!(!should_close_position(PositionState::Long, 0, 50 * ONE, stop, take));
}

#[test]
fn momentum_actions() {
    assert_eq!(momentum_action(PositionState::Flat, false, false, SignalType::Long), TradeAction::Hold);
    assert_eq!(momentum_action(PositionState::Flat, true, false, SignalType::Long), TradeAction::OpenLong);
    assert_eq!(momentum_action(PositionState::Flat, true, false, SignalType::Short), TradeAction::OpenShort);
    assert_eq!(momentum_action(PositionState::Flat, true, true, SignalType::Neutral), TradeAction::Hold);
    assert_eq!(momentum_action(PositionState::Long, true, true, SignalType::Long), TradeAction::Close);
    assert_eq!(momentum_action(PositionState::Long, true, false, SignalType::Short), TradeAction::Close);
    assert_eq!(momentum_action(PositionState::Short, true, false, SignalType::Short), TradeAction::Hold);
    assert_eq!(momentum_action(PositionState::Short, true, false, SignalType::Long), TradeAction::Close);
}

#[test]
fn position_metrics() {
    assert_eq!(
        calculate_position_metrics(PositionState::Long, ONE / 2, 100 * ONE, 110 * ONE),
        (55 * ONE as i128, 5 * ONE as i128)
    );
    assert_eq!(
        calculate_position_metrics(PositionState::Short, ONE / 2, 100 * ONE, 110 * ONE),
        (-55 * ONE as i128, -5 * ONE as i128)
    );
    assert_eq!(calculate_position_metrics(PositionState::Flat, ONE, 100 * ONE, 110 * ONE), (0, 0));
}
