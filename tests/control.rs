use crossbeam_channel::{unbounded, Receiver, Sender};
use hft_control::control::{
    clamp_speed, ControlResponse, ControlState, ControlStatus, StrategyCommand, StrategyController,
};
use hft_control::fixed::ONE;
use hft_control::runner::{loop_step, LoopStep};

fn controller() -> (StrategyController, Sender<StrategyCommand>, Receiver<ControlResponse>) {
    let (cmd_tx, cmd_rx) = unbounded();
    let (resp_tx, resp_rx) = unbounded();
    (StrategyController::new(cmd_rx, resp_tx), cmd_tx, resp_rx)
}

fn send_and_process(
    c: &mut StrategyController,
    tx: &Sender<StrategyCommand>,
    cmd: StrategyCommand,
) -> bool {
    tx.send(cmd).unwrap();
    c.process_commands(100_000)
}

#[test]
fn new_controller_is_paused_at_normal_speed() {
    let (c, _tx, rx) = controller();
    assert_eq!(c.state(), ControlState::Paused);
    assert_eq!(c.speed_multiplier(), ONE);
    assert!(!c.should_stop());
    assert!(!c.should_skip());
    assert!(!c.is_running());
    assert!(rx.try_recv().is_err());
}

#[test]
fn set_speed_is_clamped() {
    let cases: [(i64, i64); 6] = [
        (-5 * ONE, ONE / 100),
        (ONE / 1000, ONE / 100),
        (ONE / 100, ONE / 100),
        (ONE, ONE),
        (50 * ONE, 50 * ONE),
        (1000 * ONE, 100 * ONE),
    ];
    for (x, expected) in cases {
        let (mut c, tx, rx) = controller();
        assert!(send_and_process(&mut c, &tx, StrategyCommand::SetSpeed(x)));
        assert_eq!(c.speed_multiplier(), expected);
        match rx.try_recv().unwrap() {
            ControlResponse::SpeedChanged(v) => assert_eq!(v, expected),
            other => panic!("unexpected response {:?}", other),
        }
        assert_eq!(clamp_speed(x), expected);
    }
}

#[test]
fn each_command_yields_one_response_and_the_table_state() {
    let cases: Vec<(StrategyCommand, ControlState)> = vec![
        (StrategyCommand::Start, ControlState::Running),
        (StrategyCommand::Pause, ControlState::Paused),
        (StrategyCommand::Stop, ControlState::Stopped),
        (StrategyCommand::SetSpeed(2 * ONE), ControlState::Stopped),
        (StrategyCommand::ChangeFiles(vec!["a.npz".to_string()]), ControlState::Stopped),
        (StrategyCommand::Skip, ControlState::Stopped),
        (StrategyCommand::Reset, ControlState::Paused),
        (StrategyCommand::Start, ControlState::Running),
    ];
    let (mut c, tx, rx) = controller();
    for (cmd, expected) in cases {
        assert!(send_and_process(&mut c, &tx, cmd));
        assert_eq!(c.state(), expected);
        assert!(rx.try_recv().is_ok());
        assert!(rx.try_recv().is_err());
    }
}

#[test]
fn responses_match_commands() {
    let (mut c, tx, rx) = controller();
    send_and_process(&mut c, &tx, StrategyCommand::Start);
    assert!(matches!(rx.try_recv().unwrap(), ControlResponse::StateChanged(ControlState::Running)));
    send_and_process(&mut c, &tx, StrategyCommand::Pause);
    assert!(matches!(rx.try_recv().unwrap(), ControlResponse::StateChanged(ControlState::Paused)));
    send_and_process(&mut c, &tx, StrategyCommand::Skip);
    assert!(matches!(rx.try_recv().unwrap(), ControlResponse::Skipped));
    assert!(c.should_skip());
    c.reset_skip();
    assert!(!c.should_skip());
    send_and_process(&mut c, &tx, StrategyCommand::ChangeFiles(vec!["x".to_string(), "y".to_string()]));
    match rx.try_recv().unwrap() {
        ControlResponse::FilesChanged(files) => assert_eq!(files, vec!["x".to_string(), "y".to_string()]),
        other => panic!("unexpected response {:?}", other),
    }
    send_and_process(&mut c, &tx, StrategyCommand::Stop);
    assert!(matches!(rx.try_recv().unwrap(), ControlResponse::StateChanged(ControlState::Stopped)));
}

#[test]
fn pause_while_stopped_is_accepted() {
    let (mut c, tx, rx) = controller();
    send_and_process(&mut c, &tx, StrategyCommand::Stop);
    send_and_process(&mut c, &tx, StrategyCommand::Pause);
    assert_eq!(c.state(), ControlState::Paused);
    assert!(c.should_stop());
    assert_eq!(rx.try_iter().count(), 2);
}

#[test]
fn reset_restores_the_initial_status() {
    let (mut c, tx, rx) = controller();
    send_and_process(&mut c, &tx, StrategyCommand::Start);
    send_and_process(&mut c, &tx, StrategyCommand::SetSpeed(7 * ONE));
    send_and_process(&mut c, &tx, StrategyCommand::Skip);
    send_and_process(&mut c, &tx, StrategyCommand::Stop);
    send_and_process(&mut c, &tx, StrategyCommand::Reset);
    assert_eq!(c.state(), ControlState::Paused);
    assert!(!c.should_stop());
    assert!(!c.should_skip());
    assert_eq!(c.speed_multiplier(), ONE);
    assert_eq!(rx.try_iter().count(), 5);
}

#[test]
fn no_command_means_no_change() {
    let (mut c, _tx, rx) = controller();
    assert!(!c.process_commands(1));
    assert_eq!(c.state(), ControlState::Paused);
    assert!(rx.try_recv().is_err());
}

#[test]
fn stop_while_running_exits_the_file_loop() {
    let (mut c, tx, _rx) = controller();
    send_and_process(&mut c, &tx, StrategyCommand::Start);
    assert_eq!(loop_step(false, c.state(), c.should_stop()), LoopStep::Advance);
    tx.send(StrategyCommand::Stop).unwrap();
    assert!(c.process_commands(100_000));
    assert!(c.should_stop());
    assert_eq!(loop_step(false, c.state(), c.should_stop()), LoopStep::Abort);
}

#[test]
fn direct_stop_sends_nothing() {
    let (mut c, _tx, rx) = controller();
    c.stop();
    assert_eq!(c.state(), ControlState::Stopped);
    assert!(c.should_stop());
    assert!(rx.try_recv().is_err());
}

#[test]
fn mark_completed_sends_completed() {
    let (mut c, _tx, rx) = controller();
    c.mark_completed();
    assert_eq!(c.state(), ControlState::Completed);
    assert!(matches!(rx.try_recv().unwrap(), ControlResponse::Completed));
    assert!(rx.try_recv().is_err());
}

#[test]
fn status_apply_without_channels() {
    let mut s = ControlStatus::new();
    let r = s.apply(StrategyCommand::SetSpeed(-ONE));
    assert!(matches!(r, ControlResponse::SpeedChanged(v) if v == ONE / 100));
    assert_eq!(s.speed, ONE / 100);
    assert_eq!(ControlState::Running.name(), "Running");
    assert_eq!(ControlState::Completed.name(), "Completed");
}
