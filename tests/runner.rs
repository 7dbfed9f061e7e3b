use hft_control::control::ControlState;
use hft_control::fixed::ONE;
use hft_control::runner::{
    calculate_speed_params, file_gate, loop_step, should_mark_completed, ElapseOutcome, FileGate,
    FileSession, LoopStep, TickAction,
};

#[test]
fn speed_hundred_is_a_full_batch_without_delay() {
    assert_eq!(calculate_speed_params(100 * ONE), (100, 0));
    assert_eq!(calculate_speed_params(1000 * ONE), (100, 0));
}

#[test]
fn speed_half_is_one_tick_and_twenty_ms() {
    assert_eq!(calculate_speed_params(ONE / 2), (1, 20));
}

#[test]
fn fast_speeds_batch_ceil_of_a_tenth() {
    assert_eq!(calculate_speed_params(10 * ONE), (1, 1));
    assert_eq!(calculate_speed_params(50 * ONE), (5, 1));
    assert_eq!(calculate_speed_params(55 * ONE), (6, 1));
    assert_eq!(calculate_speed_params(99 * ONE), (10, 1));
}

#[test]
fn slow_speeds_delay_ten_over_speed() {
    assert_eq!(calculate_speed_params(ONE), (1, 10));
    assert_eq!(calculate_speed_params(ONE / 100), (1, 1000));
    assert_eq!(calculate_speed_params(3 * ONE), (1, 3));
}

#[test]
fn file_gate_waits_begins_or_aborts() {
    assert_eq!(file_gate(ControlState::Paused, false), FileGate::Wait);
    assert_eq!(file_gate(ControlState::Running, false), FileGate::Begin);
    assert_eq!(file_gate(ControlState::Running, true), FileGate::Abort);
    assert_eq!(file_gate(ControlState::Stopped, true), FileGate::Abort);
}

#[test]
fn end_of_data_finishes_the_file_even_after_stop() {
    assert_eq!(loop_step(true, ControlState::Running, false), LoopStep::FinishFile);
    assert_eq!(loop_step(true, ControlState::Stopped, true), LoopStep::FinishFile);
    assert_eq!(loop_step(false, ControlState::Paused, false), LoopStep::WaitForCommand);
    assert_eq!(loop_step(false, ControlState::Paused, true), LoopStep::Abort);
}

#[test]
fn ticks_are_counted_and_every_nth_is_evaluated() {
    let mut s = FileSession::new(3);
    assert_eq!(s.on_elapse(ElapseOutcome::Data { book_valid: false }), TickAction::Skip);
    assert_eq!(s.update_count, 0);
    assert_eq!(s.on_elapse(ElapseOutcome::Data { book_valid: true }), TickAction::Count);
    assert_eq!(s.on_elapse(ElapseOutcome::Data { book_valid: true }), TickAction::Count);
    assert_eq!(s.on_elapse(ElapseOutcome::Data { book_valid: true }), TickAction::Evaluate);
    assert_eq!(s.update_count, 3);
    assert!(!s.data_ended);
    assert_eq!(s.on_elapse(ElapseOutcome::EndOfData), TickAction::EndBatch);
    assert!(s.data_ended);
    assert_eq!(s.update_count, 3);
}

#[test]
fn failure_ends_the_data() {
    let mut s = FileSession::new(1);
    assert_eq!(s.on_elapse(ElapseOutcome::Data { book_valid: true }), TickAction::Evaluate);
    assert_eq!(s.on_elapse(ElapseOutcome::Failed), TickAction::EndBatch);
    assert!(s.data_ended);
}

#[test]
fn completion_only_without_stop() {
    assert!(should_mark_completed(false));
    assert!(!should_mark_completed(true));
}
