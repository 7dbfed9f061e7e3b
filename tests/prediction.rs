use hft_control::fixed::ONE;
use hft_control::prediction::{PredictionQueue, PricePredictionData, MAX_PENDING};

const SECOND: i64 = 1_000_000_000;

fn prediction(mid: i64, change: i64, t: i64) -> PricePredictionData {
    PricePredictionData { mid_price: mid, predicted_change: change, timestamp: t }
}

#[test]
fn matured_predictions_are_checked_once() {
    let mut q = PredictionQueue::new();
    q.push(prediction(100 * ONE, ONE / 2, 0));
    q.push(prediction(100 * ONE, -ONE / 5, SECOND / 2));
    q.push(prediction(100 * ONE, ONE, 2 * SECOND));

    let first = q.validate(101 * ONE, SECOND + SECOND / 5);
    assert_eq!(first.len(), 1);
    assert_eq!(first[0].prediction.timestamp, 0);
    assert_eq!(first[0].actual_change, ONE as i128);
    assert!(first[0].correct);
    assert_eq!(q.total_predictions(), 1);
    assert_eq!(q.correct_predictions(), 1);

    let again = q.validate(101 * ONE, SECOND + SECOND / 5);
    assert!(again.is_empty());

    let second = q.validate(99 * ONE, SECOND + SECOND * 6 / 10);
    assert_eq!(second.len(), 1);
    assert_eq!(second[0].prediction.timestamp, SECOND / 2);
    assert_eq!(second[0].actual_change, -(ONE as i128));
    assert!(second[0].correct);

    let third = q.validate(99 * ONE, 3 * SECOND);
    assert_eq!(third.len(), 1);
    assert!(!third[0].correct);
    assert_eq!(q.total_predictions(), 3);
    assert_eq!(q.correct_predictions(), 2);
}

#[test]
fn flat_outcome_is_not_correct() {
    let mut q = PredictionQueue::new();
    q.push(prediction(100 * ONE, ONE, 0));
    let v = q.validate(100 * ONE, SECOND);
    assert_eq!(v[0].actual_change, 0);
    assert!(!v[0].correct);
}

#[test]
fn queue_keeps_the_newest_predictions() {
    let mut q = PredictionQueue::new();
    for i in 0..(MAX_PENDING as i64 + 1) {
        q.push(prediction(100 * ONE, 0, i));
    }
    let v = q.validate(100 * ONE, 10 * SECOND);
    assert_eq!(v.len(), MAX_PENDING);
    assert_eq!(v[0].prediction.timestamp, 1);
}
