//! The operator control state machine: commands from the operator change the
//! shared control status, and each one is answered with exactly one response.
use crate::fixed::ONE;
use crossbeam_channel::{Receiver, Sender};
use vstd::prelude::*;

verus! {

/// Lowest speed multiplier (0.01).
pub const MIN_SPEED: i64 = 1_000_000;

/// Highest speed multiplier (100.0).
pub const MAX_SPEED: i64 = 10_000_000_000;

/// Speed multiplier of a fresh or reset session (1.0).
pub const DEFAULT_SPEED: i64 = ONE;

/// Declares crossbeam_channel::Receiver, held opaquely by the controller.
#[verifier::external_type_specification]
#[verifier::external_body]
#[verifier::reject_recursive_types(T)]
pub struct ExReceiver<T>(crossbeam_channel::Receiver<T>);

/// Declares crossbeam_channel::Sender, held opaquely by the controller.
#[verifier::external_type_specification]
#[verifier::external_body]
#[verifier::reject_recursive_types(T)]
pub struct ExSender<T>(crossbeam_channel::Sender<T>);

/// Lifecycle of a strategy session.
#[derive(Clone, Copy, Debug, PartialEq, Eq, Structural)]
pub enum ControlState {
    Running,
    Paused,
    Stopped,
    Completed,
}

impl ControlState {
    pub open spec fn name_spec(self) -> Seq<char> {
        match self {
            ControlState::Running => "Running"@,
            ControlState::Paused => "Paused"@,
            ControlState::Stopped => "Stopped"@,
            ControlState::Completed => "Completed"@,
        }
    }

    /// The state's name, as shown to the operator.
    pub fn name(&self) -> (r: &'static str)
        ensures
            r@ == self.name_spec(),
    {
        match self {
            ControlState::Running => "Running",
            ControlState::Paused => "Paused",
            ControlState::Stopped => "Stopped",
            ControlState::Completed => "Completed",
        }
    }
}

/// A command from the operator. Speeds are fixed-point (see `fixed::ONE`).
#[derive(Clone, Debug)]
pub enum StrategyCommand {
    Start,
    Pause,
    Stop,
    SetSpeed(i64),
    ChangeFiles(Vec<String>),
    Skip,
    Reset,
}

/// The answer to one command, sent back to the operator.
#[derive(Clone, Debug)]
pub enum ControlResponse {
    StateChanged(ControlState),
    SpeedChanged(i64),
    FilesChanged(Vec<String>),
    Skipped,
    Error(String),
    Completed,
}

/// Everything the commands act on.
#[derive(Clone, Copy, Debug, PartialEq, Eq, Structural)]
pub struct ControlStatus {
    pub state: ControlState,
    pub should_stop: bool,
    pub should_skip: bool,
    pub speed: i64,
}

pub open spec fn clamp_speed_spec(x: int) -> int {
    if x < MIN_SPEED {
        MIN_SPEED as int
    } else if x > MAX_SPEED {
        MAX_SPEED as int
    } else {
        x
    }
}

/// Clamps a requested speed multiplier into `[MIN_SPEED, MAX_SPEED]`.
pub fn clamp_speed(x: i64) -> (r: i64)
    ensures
        r == clamp_speed_spec(x as int),
        MIN_SPEED <= r <= MAX_SPEED,
{
    if x < MIN_SPEED {
        MIN_SPEED
    } else if x > MAX_SPEED {
        MAX_SPEED
    } else {
        x
    }
}

pub open spec fn initial_status() -> ControlStatus {
    ControlStatus { state: ControlState::Paused, should_stop: false, should_skip: false, speed: DEFAULT_SPEED }
}

/// The status after `c` is applied to `s`.
pub open spec fn next_status(s: ControlStatus, c: StrategyCommand) -> ControlStatus {
    match c {
        StrategyCommand::Start => ControlStatus {
            state: ControlState::Running,
            should_stop: false,
            should_skip: s.should_skip,
            speed: s.speed,
        },
        StrategyCommand::Pause => ControlStatus {
            state: ControlState::Paused,
            should_stop: s.should_stop,
            should_skip: s.should_skip,
            speed: s.speed,
        },
        StrategyCommand::Stop => ControlStatus {
            state: ControlState::Stopped,
            should_stop: true,
            should_skip: s.should_skip,
            speed: s.speed,
        },
        StrategyCommand::SetSpeed(x) => ControlStatus {
            state: s.state,
            should_stop: s.should_stop,
            should_skip: s.should_skip,
            speed: clamp_speed_spec(x as int) as i64,
        },
        StrategyCommand::ChangeFiles(_) => s,
        StrategyCommand::Skip => ControlStatus {
            state: s.state,
            should_stop: s.should_stop,
            should_skip: true,
            speed: s.speed,
        },
        StrategyCommand::Reset => initial_status(),
    }
}

/// The response that answers `c` when it is applied to `s`.
pub open spec fn response_to(s: ControlStatus, c: StrategyCommand) -> ControlResponse {
    match c {
        StrategyCommand::Start => ControlResponse::StateChanged(ControlState::Running),
        StrategyCommand::Pause => ControlResponse::StateChanged(ControlState::Paused),
        StrategyCommand::Stop => ControlResponse::StateChanged(ControlState::Stopped),
        StrategyCommand::SetSpeed(x) => ControlResponse::SpeedChanged(clamp_speed_spec(x as int) as i64),
        StrategyCommand::ChangeFiles(files) => ControlResponse::FilesChanged(files),
        StrategyCommand::Skip => ControlResponse::Skipped,
        StrategyCommand::Reset => ControlResponse::StateChanged(ControlState::Paused),
    }
}

/// The state that the command table prescribes after `c`, from state `prev`.
pub open spec fn table_state(prev: ControlState, c: StrategyCommand) -> ControlState {
    match c {
        StrategyCommand::Start => ControlState::Running,
        StrategyCommand::Pause => ControlState::Paused,
        StrategyCommand::Stop => ControlState::Stopped,
        StrategyCommand::Reset => ControlState::Paused,
        _ => prev,
    }
}

impl ControlStatus {
    /// The status of a fresh session: paused, at normal speed.
    pub fn new() -> (r: ControlStatus)
        ensures
            r == initial_status(),
    {
        ControlStatus { state: ControlState::Paused, should_stop: false, should_skip: false, speed: DEFAULT_SPEED }
    }

    /// Applies one command and returns its response. No command is refused
    /// in any state.
    pub fn apply(&mut self, command: StrategyCommand) -> (r: ControlResponse)
        ensures
            *final(self) == next_status(*old(self), command),
            r == response_to(*old(self), command),
    {
        match command {
            StrategyCommand::Start => {
                self.state = ControlState::Running;
                self.should_stop = false;
                ControlResponse::StateChanged(ControlState::Running)
            },
            StrategyCommand::Pause => {
                self.state = ControlState::Paused;
                ControlResponse::StateChanged(ControlState::Paused)
            },
            StrategyCommand::Stop => {
                self.state = ControlState::Stopped;
                self.should_stop = true;
                ControlResponse::StateChanged(ControlState::Stopped)
            },
            StrategyCommand::SetSpeed(x) => {
                let clamped = clamp_speed(x);
                self.speed = clamped;
                ControlResponse::SpeedChanged(clamped)
            },
            StrategyCommand::ChangeFiles(files) => ControlResponse::FilesChanged(files),
            StrategyCommand::Skip => {
                self.should_skip = true;
                ControlResponse::Skipped
            },
            StrategyCommand::Reset => {
                *self = ControlStatus::new();
                ControlResponse::StateChanged(ControlState::Paused)
            },
        }
    }
}

/// Every command yields exactly one response, and the state after it is the
/// one the command table prescribes, from any status.
pub proof fn lemma_command_table(s: ControlStatus, c: StrategyCommand)
    ensures
        next_status(s, c).state == table_state(s.state, c),
        c is Stop ==> next_status(s, c).should_stop,
        c is Start ==> !next_status(s, c).should_stop,
        c is Reset ==> next_status(s, c) == initial_status(),
        c is SetSpeed ==> next_status(s, c).speed == clamp_speed_spec(c->SetSpeed_0 as int),
        c is Skip ==> next_status(s, c).should_skip,
{
}

/// Whatever speed is asked for, the speed in force afterwards is the request
/// clamped into `[MIN_SPEED, MAX_SPEED]`.
pub proof fn lemma_set_speed_clamps(s: ControlStatus, x: i64)
    ensures
        next_status(s, StrategyCommand::SetSpeed(x)).speed == clamp_speed_spec(x as int),
        MIN_SPEED <= next_status(s, StrategyCommand::SetSpeed(x)).speed <= MAX_SPEED,
        MIN_SPEED <= x <= MAX_SPEED ==> next_status(s, StrategyCommand::SetSpeed(x)).speed == x,
        response_to(s, StrategyCommand::SetSpeed(x)) == ControlResponse::SpeedChanged(
            clamp_speed_spec(x as int) as i64,
        ),
{
}

/// Relies on crossbeam_channel::Receiver::recv_timeout: waits at most the
/// given time for one command; `None` when none came or the channel closed.
#[verifier::external_body]
fn recv_command(rx: &Receiver<StrategyCommand>, timeout_micros: u64) -> (r: Option<StrategyCommand>) {
    rx.recv_timeout(std::time::Duration::from_micros(timeout_micros)).ok()
}

/// Relies on crossbeam_channel::Sender::send: hands one response to the
/// channel; a closed channel drops it.
#[verifier::external_body]
fn send_response(tx: &Sender<ControlResponse>, response: ControlResponse) {
    let _ = tx.send(response);
}

/// Mediates operator commands for the strategy thread: it owns the command
/// receiver, the response sender and the control status.
pub struct StrategyController {
    command_rx: Receiver<StrategyCommand>,
    response_tx: Sender<ControlResponse>,
    status: ControlStatus,
    sent: Ghost<Seq<ControlResponse>>,
}

impl StrategyController {
    /// The control status in force.
    pub closed spec fn status(&self) -> ControlStatus {
        self.status
    }

    /// The responses handed to the response channel so far, in order.
    pub closed spec fn responses(&self) -> Seq<ControlResponse> {
        self.sent@
    }

    pub fn new(command_rx: Receiver<StrategyCommand>, response_tx: Sender<ControlResponse>) -> (r:
        StrategyController)
        ensures
            r.status() == initial_status(),
            r.responses() == Seq::<ControlResponse>::empty(),
    {
        StrategyController {
            command_rx,
            response_tx,
            status: ControlStatus::new(),
            sent: Ghost(Seq::empty()),
        }
    }

    pub fn state(&self) -> (r: ControlState)
        ensures
            r == self.status().state,
    {
        self.status.state
    }

    pub fn speed_multiplier(&self) -> (r: i64)
        ensures
            r == self.status().speed,
    {
        self.status.speed
    }

    pub fn should_stop(&self) -> (r: bool)
        ensures
            r == self.status().should_stop,
    {
        self.status.should_stop
    }

    pub fn should_skip(&self) -> (r: bool)
        ensures
            r == self.status().should_skip,
    {
        self.status.should_skip
    }

    pub fn is_running(&self) -> (r: bool)
        ensures
            r == (self.status().state == ControlState::Running),
    {
        self.status.state == ControlState::Running
    }

    /// Forces the stopped state without going through the channel; no
    /// response is sent.
    pub fn stop(&mut self)
        ensures
            final(self).status() == (ControlStatus {
                state: ControlState::Stopped,
                should_stop: true,
                ..old(self).status()
            }),
            final(self).responses() == old(self).responses(),
    {
        self.status.state = ControlState::Stopped;
        self.status.should_stop = true;
    }

    pub fn reset_skip(&mut self)
        ensures
            final(self).status() == (ControlStatus { should_skip: false, ..old(self).status() }),
            final(self).responses() == old(self).responses(),
    {
        self.status.should_skip = false;
    }

    /// Applies one command and sends its response.
    pub fn handle_command(&mut self, command: StrategyCommand)
        ensures
            final(self).status() == next_status(old(self).status(), command),
            final(self).responses() == old(self).responses().push(
                response_to(old(self).status(), command),
            ),
    {
        let response = self.status.apply(command);
        send_response(&self.response_tx, response);
        proof {
            self.sent@ = self.sent@.push(response);
        }
    }

    /// Waits up to `timeout_micros` for one command. When one came, it is
    /// applied, exactly one response is sent, and the result is `true`;
    /// otherwise nothing changes and the result is `false`.
    pub fn process_commands(&mut self, timeout_micros: u64) -> (r: bool)
        ensures
            r ==> exists|c: StrategyCommand|
                {
                    &&& final(self).status() == next_status(old(self).status(), c)
                    &&& final(self).status().state == table_state(old(self).status().state, c)
                    &&& final(self).responses() == old(self).responses().push(
                        response_to(old(self).status(), c),
                    )
                },
            !r ==> final(self).status() == old(self).status() && final(self).responses()
                == old(self).responses(),
    {
        match recv_command(&self.command_rx, timeout_micros) {
            Some(command) => {
                let ghost c = command;
                proof {
                    lemma_command_table(self.status, c);
                }
                self.handle_command(command);
                assert(final(self).status() == next_status(old(self).status(), c));
                true
            },
            None => false,
        }
    }

    /// Marks the session completed and sends `Completed`.
    pub fn mark_completed(&mut self)
        ensures
            final(self).status() == (ControlStatus {
                state: ControlState::Completed,
                ..old(self).status()
            }),
            final(self).responses() == old(self).responses().push(ControlResponse::Completed),
    {
        self.status.state = ControlState::Completed;
        send_response(&self.response_tx, ControlResponse::Completed);
        proof {
            self.sent@ = self.sent@.push(ControlResponse::Completed);
        }
    }
}

} // verus!
