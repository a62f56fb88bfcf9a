//! Properties of the driver loop, stated over the transition functions of
//! [`crate::cycle`] and proved.
use vstd::prelude::*;
use crate::cycle::{
    Action, Event, PollOutcome, Stage, Wakeup, DEFAULT_TIMEOUT_MILLIS, action_of, is_terminal,
    next_stage, next_timeout,
};

verus! {

/// The stage and wait time reached from `(stage, timeout)` by the events in order.
pub open spec fn run(stage: Stage, timeout: u64, events: Seq<Event>) -> (Stage, u64)
    decreases events.len(),
{
    if events.len() == 0 {
        (stage, timeout)
    } else {
        run(
            next_stage(stage, events[0]),
            next_timeout(stage, timeout, events[0]),
            events.subrange(1, events.len() as int),
        )
    }
}

/// An iteration with no timed work pending and nothing to read blocks in a
/// wait bounded by the default timeout, which is not zero: the loop is
/// suspended rather than spinning, and no poll is asked for before the wait.
pub proof fn lemma_idle_iteration_blocks(timeout: u64)
    ensures
        run(Stage::Plan, timeout, seq![Event::Delay(None), Event::Sent, Event::Readiness(true)])
            == (Stage::Wait, DEFAULT_TIMEOUT_MILLIS),
        action_of(Stage::Wait, DEFAULT_TIMEOUT_MILLIS) == (Action::Wait {
            timeout_millis: DEFAULT_TIMEOUT_MILLIS,
        }),
        DEFAULT_TIMEOUT_MILLIS > 0,
        next_stage(Stage::Plan, Event::Delay(None)) != Stage::Poll,
        next_stage(Stage::Flush, Event::Sent) != Stage::Poll,
{
    reveal_with_fuel(run, 4);
    let evs = seq![Event::Delay(None), Event::Sent, Event::Readiness(true)];
    assert(evs.subrange(1, 3) =~= seq![Event::Sent, Event::Readiness(true)]);
    assert(evs.subrange(1, 3).subrange(1, 2) =~= seq![Event::Readiness(true)]);
    assert(evs.subrange(1, 3).subrange(1, 2).subrange(1, 1) =~= Seq::<Event>::empty());
}

/// When the engine asks to be polled again after `d` milliseconds, the
/// iteration waits for exactly `d`, and the deadline elapsing alone leads
/// to the poll.
pub proof fn lemma_deadline_bounds_wait(timeout: u64, d: u64)
    ensures
        run(
            Stage::Plan,
            timeout,
            seq![Event::Delay(Some(d)), Event::Sent, Event::Readiness(true)],
        ) == (Stage::Wait, d),
        action_of(Stage::Wait, d) == (Action::Wait { timeout_millis: d }),
        next_stage(
            Stage::Wait,
            Event::Waited(Wakeup { deadline: true, readiness: false, woken: false, shutdown: false }),
        ) == Stage::Poll,
{
    reveal_with_fuel(run, 4);
    let evs = seq![Event::Delay(Some(d)), Event::Sent, Event::Readiness(true)];
    assert(evs.subrange(1, 3) =~= seq![Event::Sent, Event::Readiness(true)]);
    assert(evs.subrange(1, 3).subrange(1, 2) =~= seq![Event::Readiness(true)]);
    assert(evs.subrange(1, 3).subrange(1, 2).subrange(1, 1) =~= Seq::<Event>::empty());
}

/// A wake ends the current wait and leads straight to the poll, whatever
/// the wait time was, unless shutdown fired as well.
pub proof fn lemma_wake_leads_to_poll(timeout: u64, w: Wakeup)
    requires
        w.woken,
        !w.shutdown,
    ensures
        next_stage(Stage::Wait, Event::Waited(w)) == Stage::Poll,
        action_of(next_stage(Stage::Wait, Event::Waited(w)), timeout) == Action::Poll,
{
}

/// A terminal stage is never left, and asks for no poll, whatever events follow.
pub proof fn lemma_terminal_absorbs(stage: Stage, timeout: u64, events: Seq<Event>)
    requires
        is_terminal(stage),
    ensures
        run(stage, timeout, events).0 == stage,
        action_of(run(stage, timeout, events).0, run(stage, timeout, events).1) != Action::Poll,
    decreases events.len(),
{
    if events.len() > 0 {
        lemma_terminal_absorbs(
            next_stage(stage, events[0]),
            next_timeout(stage, timeout, events[0]),
            events.subrange(1, events.len() as int),
        );
    }
}

/// Shutdown observed during a wait stops the loop, even when other
/// conditions fired with it, and no event after that leads to a poll.
pub proof fn lemma_shutdown_stops(timeout: u64, w: Wakeup, later: Seq<Event>)
    requires
        w.shutdown,
    ensures
        next_stage(Stage::Wait, Event::Waited(w)) == Stage::Stopped,
        action_of(Stage::Stopped, timeout) == Action::Exit,
        run(Stage::Stopped, timeout, later).0 == Stage::Stopped,
        action_of(run(Stage::Stopped, timeout, later).0, run(Stage::Stopped, timeout, later).1)
            == Action::Exit,
{
    lemma_terminal_absorbs(Stage::Stopped, timeout, later);
}

/// The loop stops only on a shutdown observed while waiting.
pub proof fn lemma_stops_only_on_shutdown(stage: Stage, event: Event)
    requires
        stage != Stage::Stopped,
        next_stage(stage, event) == Stage::Stopped,
    ensures
        stage == Stage::Wait,
        event matches Event::Waited(w) && w.shutdown,
{
}

/// Whatever the engine's poll returns, error or not, the loop goes on to
/// the next iteration.
pub proof fn lemma_poll_outcome_continues(timeout: u64, outcome: PollOutcome)
    ensures
        next_stage(Stage::Poll, Event::Polled(outcome)) == Stage::Plan,
        !is_terminal(next_stage(Stage::Poll, Event::Polled(outcome))),
        action_of(next_stage(Stage::Poll, Event::Polled(outcome)), timeout) == Action::AskDelay,
{
}

/// When the device has work pending, the wait is skipped and the poll
/// follows the flush directly.
pub proof fn lemma_ready_device_skips_wait(timeout: u64)
    ensures
        next_stage(Stage::CheckReady, Event::Readiness(false)) == Stage::Poll,
        action_of(next_stage(Stage::CheckReady, Event::Readiness(false)), timeout)
            == Action::Poll,
{
}

/// Position of a running stage within an iteration.
pub open spec fn order(stage: Stage) -> int {
    match stage {
        Stage::Plan => 0,
        Stage::Flush => 1,
        Stage::CheckReady => 2,
        Stage::Wait => 3,
        Stage::Poll => 4,
        _ => 5,
    }
}

/// Within an iteration the stages only move forward: the outbound flush
/// comes before the wait, and the wait before the poll. A step stays put,
/// moves to a later stage, ends the loop, or starts the next iteration
/// after the poll.
pub proof fn lemma_iteration_order(stage: Stage, event: Event)
    requires
        !is_terminal(stage),
    ensures
        next_stage(stage, event) == stage
            || is_terminal(next_stage(stage, event))
            || order(next_stage(stage, event)) > order(stage)
            || (stage == Stage::Poll && next_stage(stage, event) == Stage::Plan),
        next_stage(stage, event) == Stage::Wait ==> stage == Stage::Wait || stage
            == Stage::CheckReady,
        next_stage(stage, event) == Stage::Poll ==> stage == Stage::Poll || stage
            == Stage::CheckReady || stage == Stage::Wait,
{
}

} // verus!
