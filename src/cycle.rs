//! The driver loop as a state machine.
//!
//! Each iteration runs through the stages `Plan`, `Flush`, `CheckReady`,
//! optionally `Wait`, and `Poll`. The runner performs the [`Action`] that
//! [`Driver::step`] hands out and reports what came of it as an [`Event`].
//! Only a shutdown observed while waiting ends the loop cleanly; a failed
//! flush of the outbound queue aborts it.
use vstd::prelude::*;

verus! {

/// Wait used when the protocol engine has no timed work pending: one minute.
pub const DEFAULT_TIMEOUT_MILLIS: u64 = 60_000;

/// Where the driver stands within an iteration.
#[derive(Clone, Copy, Debug, PartialEq, Eq, Structural)]
pub enum Stage {
    /// Start of an iteration: the engine's next deadline is wanted.
    Plan,
    /// The outbound queue must be flushed.
    Flush,
    /// The device must say whether there is anything to wait for.
    CheckReady,
    /// Blocked on the first of deadline, readiness, wake and shutdown.
    Wait,
    /// The engine must advance its state once.
    Poll,
    /// Terminal: the shutdown signal was observed.
    Stopped,
    /// Terminal: flushing the outbound queue failed.
    Aborted,
}

/// Result of one advance of the protocol engine.
#[derive(Clone, Copy, Debug, PartialEq, Eq, Structural)]
pub enum PollOutcome {
    /// Socket readiness may have changed.
    Changed,
    /// Nothing changed.
    Unchanged,
    /// The engine dropped a packet; nothing else happened.
    Dropped,
    /// Any other engine error.
    Failed,
}

/// Which wake conditions had fired when a wait ended.
#[derive(Clone, Copy, Debug, PartialEq, Eq, Structural)]
pub struct Wakeup {
    pub deadline: bool,
    pub readiness: bool,
    pub woken: bool,
    pub shutdown: bool,
}

/// What the runner reports back after performing an action.
#[derive(Clone, Copy, Debug, PartialEq, Eq, Structural)]
pub enum Event {
    /// The engine's requested delay until its next poll, in milliseconds,
    /// or `None` when it has no timed work pending.
    Delay(Option<u64>),
    /// The outbound queue was flushed.
    Sent,
    /// Flushing the outbound queue failed.
    SendFailed,
    /// Whether the device has nothing immediately actionable.
    Readiness(bool),
    /// The wait ended with these conditions fired.
    Waited(Wakeup),
    /// The engine advanced with this outcome.
    Polled(PollOutcome),
}

/// What the runner must do next.
#[derive(Clone, Copy, Debug, PartialEq, Eq, Structural)]
pub enum Action {
    /// Sample the clock and ask the engine for its next delay, holding the
    /// registry lock only for that call.
    AskDelay,
    /// Flush the device's outbound queue.
    Flush,
    /// Ask the device whether a wait is needed.
    AskReadiness,
    /// Wait for the first of: this many milliseconds elapsing, device
    /// readiness, the wake signal, the shutdown signal.
    Wait { timeout_millis: u64 },
    /// Lock the registry, sample the clock afresh and advance the engine.
    Poll,
    /// Leave the loop cleanly.
    Exit,
    /// Leave the loop with a transmit failure.
    Abort,
}

/// The time to wait for: the engine's delay, or the default when it has none.
pub open spec fn wait_time(delay: Option<u64>) -> u64 {
    match delay {
        Some(d) => d,
        None => DEFAULT_TIMEOUT_MILLIS,
    }
}

/// Whether the stage ends the loop.
pub open spec fn is_terminal(stage: Stage) -> bool {
    stage == Stage::Stopped || stage == Stage::Aborted
}

/// The stage that follows `stage` on `event`; an event that does not answer
/// the pending action leaves the stage as it is.
pub open spec fn next_stage(stage: Stage, event: Event) -> Stage {
    match (stage, event) {
        (Stage::Plan, Event::Delay(_)) => Stage::Flush,
        (Stage::Flush, Event::Sent) => Stage::CheckReady,
        (Stage::Flush, Event::SendFailed) => Stage::Aborted,
        (Stage::CheckReady, Event::Readiness(need_wait)) => if need_wait {
            Stage::Wait
        } else {
            Stage::Poll
        },
        (Stage::Wait, Event::Waited(w)) => if w.shutdown {
            Stage::Stopped
        } else {
            Stage::Poll
        },
        (Stage::Poll, Event::Polled(_)) => Stage::Plan,
        _ => stage,
    }
}

/// The wait time after `event`: set when the engine reports its delay,
/// kept otherwise.
pub open spec fn next_timeout(stage: Stage, timeout: u64, event: Event) -> u64 {
    match (stage, event) {
        (Stage::Plan, Event::Delay(d)) => wait_time(d),
        _ => timeout,
    }
}

/// The action that a driver in `stage`, with wait time `timeout`, asks for.
pub open spec fn action_of(stage: Stage, timeout: u64) -> Action {
    match stage {
        Stage::Plan => Action::AskDelay,
        Stage::Flush => Action::Flush,
        Stage::CheckReady => Action::AskReadiness,
        Stage::Wait => Action::Wait { timeout_millis: timeout },
        Stage::Poll => Action::Poll,
        Stage::Stopped => Action::Exit,
        Stage::Aborted => Action::Abort,
    }
}

/// The decision state of the driver loop.
pub struct Driver {
    stage: Stage,
    timeout_millis: u64,
}

impl Driver {
    pub closed spec fn stage_spec(&self) -> Stage {
        self.stage
    }

    pub closed spec fn timeout_spec(&self) -> u64 {
        self.timeout_millis
    }

    /// A driver at the start of its first iteration.
    pub fn new() -> (r: Driver)
        ensures
            r.stage_spec() == Stage::Plan,
            r.timeout_spec() == DEFAULT_TIMEOUT_MILLIS,
    {
        Driver { stage: Stage::Plan, timeout_millis: DEFAULT_TIMEOUT_MILLIS }
    }

    pub fn stage(&self) -> (r: Stage)
        ensures
            r == self.stage_spec(),
    {
        self.stage
    }

    /// The wait time of the current iteration, in milliseconds.
    pub fn timeout_millis(&self) -> (r: u64)
        ensures
            r == self.timeout_spec(),
    {
        self.timeout_millis
    }

    /// Whether the loop has ended, cleanly or not.
    pub fn is_finished(&self) -> (r: bool)
        ensures
            r == is_terminal(self.stage_spec()),
    {
        match self.stage {
            Stage::Stopped | Stage::Aborted => true,
            _ => false,
        }
    }

    /// The action that the driver currently asks for.
    pub fn action(&self) -> (r: Action)
        ensures
            r == action_of(self.stage_spec(), self.timeout_spec()),
    {
        match self.stage {
            Stage::Plan => Action::AskDelay,
            Stage::Flush => Action::Flush,
            Stage::CheckReady => Action::AskReadiness,
            Stage::Wait => Action::Wait { timeout_millis: self.timeout_millis },
            Stage::Poll => Action::Poll,
            Stage::Stopped => Action::Exit,
            Stage::Aborted => Action::Abort,
        }
    }

    /// Takes in what came of the last action and returns the next one.
    pub fn step(&mut self, event: Event) -> (r: Action)
        ensures
            final(self).stage_spec() == next_stage(old(self).stage_spec(), event),
            final(self).timeout_spec() == next_timeout(
                old(self).stage_spec(),
                old(self).timeout_spec(),
                event,
            ),
            r == action_of(final(self).stage_spec(), final(self).timeout_spec()),
    {
        match (self.stage, event) {
            (Stage::Plan, Event::Delay(d)) => {
                self.timeout_millis = wait_time_of(d);
                self.stage = Stage::Flush;
            },
            (Stage::Flush, Event::Sent) => {
                self.stage = Stage::CheckReady;
            },
            (Stage::Flush, Event::SendFailed) => {
                self.stage = Stage::Aborted;
            },
            (Stage::CheckReady, Event::Readiness(need_wait)) => {
                self.stage = if need_wait {
                    Stage::Wait
                } else {
                    Stage::Poll
                };
            },
            (Stage::Wait, Event::Waited(w)) => {
                self.stage = if w.shutdown {
                    Stage::Stopped
                } else {
                    Stage::Poll
                };
            },
            (Stage::Poll, Event::Polled(_)) => {
                self.stage = Stage::Plan;
            },
            _ => {},
        }
        self.action()
    }
}

/// The time to wait for, given the engine's delay.
pub fn wait_time_of(delay: Option<u64>) -> (r: u64)
    ensures
        r == wait_time(delay),
{
    match delay {
        Some(d) => d,
        None => DEFAULT_TIMEOUT_MILLIS,
    }
}

} // verus!
