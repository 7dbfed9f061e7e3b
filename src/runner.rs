//! Decisions of the execution loop: when a file may begin, what each pass of
//! the per-file loop does, how a simulated tick is accounted for, and how the
//! speed multiplier maps to a batch of ticks and a delay.
use crate::control::{next_status, ControlState, ControlStatus, StrategyCommand};
use crate::fixed::ONE;
use vstd::prelude::*;

verus! {

/// Speed (fixed-point) from which a batch holds the largest number of ticks.
pub const FAST_SPEED: i64 = 10_000_000_000;

/// Speed (fixed-point) from which batches hold more than one tick.
pub const BATCH_SPEED: i64 = 1_000_000_000;

/// Largest batch of ticks.
pub const MAX_BATCH: usize = 100;

/// Simulated time that one tick advances, in nanoseconds.
pub const ELAPSE_DURATION_NS: i64 = 100_000_000;

/// Ticks in a batch and milliseconds of delay after it, for a speed.
pub open spec fn speed_params_spec(speed: int) -> (int, int) {
    if speed >= FAST_SPEED {
        (MAX_BATCH as int, 0)
    } else if speed >= BATCH_SPEED {
        ((speed + BATCH_SPEED - 1) / BATCH_SPEED as int, 1)
    } else {
        (1, (10 * ONE) / speed)
    }
}

/// Maps the speed multiplier to a batch size and an inter-batch delay: at
/// 100 or more, 100 ticks and no delay; from 10, `ceil(speed / 10)` ticks and
/// 1 ms; below, one tick and `10 / speed` ms.
pub fn calculate_speed_params(speed: i64) -> (r: (usize, u64))
    requires
        speed > 0,
    ensures
        r.0 as int == speed_params_spec(speed as int).0,
        r.1 as int == speed_params_spec(speed as int).1,
        1 <= r.0 <= MAX_BATCH,
{
    if speed >= FAST_SPEED {
        (MAX_BATCH, 0)
    } else if speed >= BATCH_SPEED {
        let n = (speed + (BATCH_SPEED - 1)) / BATCH_SPEED;
        assert(1 <= n <= 10) by (nonlinear_arith)
            requires
                n as int == (speed as int + 999_999_999) / 1_000_000_000int,
                1_000_000_000 <= speed < 10_000_000_000,
        ;
        (n as usize, 1)
    } else {
        let ms = (10 * ONE) / speed;
        (1, ms as u64)
    }
}

/// What the runner does before a data file.
#[derive(Clone, Copy, Debug, PartialEq, Eq, Structural)]
pub enum FileGate {
    /// Poll for commands and ask again.
    Wait,
    /// A stop was requested: the whole run ends.
    Abort,
    /// Open the file and run it.
    Begin,
}

pub open spec fn file_gate_spec(state: ControlState, should_stop: bool) -> FileGate {
    if should_stop {
        FileGate::Abort
    } else if state == ControlState::Running {
        FileGate::Begin
    } else {
        FileGate::Wait
    }
}

pub fn file_gate(state: ControlState, should_stop: bool) -> (r: FileGate)
    ensures
        r == file_gate_spec(state, should_stop),
{
    if should_stop {
        FileGate::Abort
    } else if state == ControlState::Running {
        FileGate::Begin
    } else {
        FileGate::Wait
    }
}

/// What one pass of the per-file loop does.
#[derive(Clone, Copy, Debug, PartialEq, Eq, Structural)]
pub enum LoopStep {
    /// The data ended: report the file's end to the strategy and leave.
    FinishFile,
    /// A stop was requested: leave at once, without the end-of-file report.
    Abort,
    /// Not running: poll for commands and come back.
    WaitForCommand,
    /// Run the next batch of ticks.
    Advance,
}

pub open spec fn loop_step_spec(data_ended: bool, state: ControlState, should_stop: bool) -> LoopStep {
    if data_ended {
        LoopStep::FinishFile
    } else if should_stop {
        LoopStep::Abort
    } else if state != ControlState::Running {
        LoopStep::WaitForCommand
    } else {
        LoopStep::Advance
    }
}

pub fn loop_step(data_ended: bool, state: ControlState, should_stop: bool) -> (r: LoopStep)
    ensures
        r == loop_step_spec(data_ended, state, should_stop),
{
    if data_ended {
        LoopStep::FinishFile
    } else if should_stop {
        LoopStep::Abort
    } else if state != ControlState::Running {
        LoopStep::WaitForCommand
    } else {
        LoopStep::Advance
    }
}

/// A stop command received while a file is running makes the next pass of
/// the per-file loop leave without the end-of-file report, and keeps the
/// next file from beginning.
pub proof fn lemma_stop_aborts_file(s: ControlStatus)
    ensures
        next_status(s, StrategyCommand::Stop).should_stop,
        loop_step_spec(
            false,
            next_status(s, StrategyCommand::Stop).state,
            next_status(s, StrategyCommand::Stop).should_stop,
        ) == LoopStep::Abort,
        file_gate_spec(
            next_status(s, StrategyCommand::Stop).state,
            next_status(s, StrategyCommand::Stop).should_stop,
        ) == FileGate::Abort,
{
}

/// What advancing the simulator by one tick produced.
#[derive(Clone, Copy, Debug, PartialEq, Eq, Structural)]
pub enum ElapseOutcome {
    /// New market data; `book_valid` tells whether both sides are quoted.
    Data { book_valid: bool },
    EndOfData,
    Failed,
}

/// What to do after one tick.
#[derive(Clone, Copy, Debug, PartialEq, Eq, Structural)]
pub enum TickAction {
    /// The data ended: stop the batch.
    EndBatch,
    /// No valid book yet: nothing to count.
    Skip,
    /// Counted, and not a tick on which the strategy runs.
    Count,
    /// Counted, and the strategy runs on this tick.
    Evaluate,
}

/// Tick accounting for one data file.
#[derive(Clone, Copy, Debug, PartialEq, Eq, Structural)]
pub struct FileSession {
    pub update_count: u64,
    pub update_interval: u64,
    pub data_ended: bool,
}

impl FileSession {
    pub open spec fn wf(self) -> bool {
        self.update_interval > 0
    }

    pub fn new(update_interval: u64) -> (r: FileSession)
        requires
            update_interval > 0,
        ensures
            r.wf(),
            r.update_count == 0,
            r.update_interval == update_interval,
            !r.data_ended,
    {
        FileSession { update_count: 0, update_interval, data_ended: false }
    }

    /// Accounts for one tick: the end of the data or a failure ends the
    /// batch and the file; a valid book is counted, and every
    /// `update_interval`-th counted tick runs the strategy.
    pub fn on_elapse(&mut self, outcome: ElapseOutcome) -> (r: TickAction)
        requires
            old(self).wf(),
            old(self).update_count < u64::MAX,
        ensures
            final(self).wf(),
            final(self).update_interval == old(self).update_interval,
            match outcome {
                ElapseOutcome::Data { book_valid: false } => {
                    &&& r == TickAction::Skip
                    &&& *final(self) == *old(self)
                },
                ElapseOutcome::Data { book_valid: true } => {
                    &&& final(self).update_count == old(self).update_count + 1
                    &&& final(self).data_ended == old(self).data_ended
                    &&& r == if final(self).update_count % final(self).update_interval == 0 {
                        TickAction::Evaluate
                    } else {
                        TickAction::Count
                    }
                },
                _ => {
                    &&& r == TickAction::EndBatch
                    &&& final(self).data_ended
                    &&& final(self).update_count == old(self).update_count
                },
            },
    {
        match outcome {
            ElapseOutcome::Data { book_valid } => {
                if !book_valid {
                    TickAction::Skip
                } else {
                    self.update_count = self.update_count + 1;
                    if self.update_count % self.update_interval == 0 {
                        TickAction::Evaluate
                    } else {
                        TickAction::Count
                    }
                }
            },
            _ => {
                self.data_ended = true;
                TickAction::EndBatch
            },
        }
    }
}

/// After the last file: the session is marked completed only when no stop
/// was requested.
pub fn should_mark_completed(should_stop: bool) -> (r: bool)
    ensures
        r == !should_stop,
{
    !should_stop
}

} // verus!
