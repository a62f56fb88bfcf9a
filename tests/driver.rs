use reactor::cycle::{
    wait_time_of, Action, Driver, Event, PollOutcome, Stage, Wakeup, DEFAULT_TIMEOUT_MILLIS,
};

fn wakeup(deadline: bool, readiness: bool, woken: bool, shutdown: bool) -> Wakeup {
    Wakeup { deadline, readiness, woken, shutdown }
}

#[test]
fn default_wait_is_one_minute() {
    assert_eq!(DEFAULT_TIMEOUT_MILLIS, 60_000);
    assert_eq!(wait_time_of(None), 60_000);
    assert_eq!(wait_time_of(Some(250)), 250);
    assert_eq!(wait_time_of(Some(0)), 0);
    assert_eq!(wait_time_of(Some(u64::MAX)), u64::MAX);
}

#[test]
fn new_driver_asks_for_delay_first() {
    let d = Driver::new();
    assert_eq!(d.stage(), Stage::Plan);
    assert_eq!(d.action(), Action::AskDelay);
    assert!(!d.is_finished());
}

#[test]
fn idle_iteration_waits_default_timeout() {
    let mut d = Driver::new();
    assert_eq!(d.step(Event::Delay(None)), Action::Flush);
    assert_eq!(d.step(Event::Sent), Action::AskReadiness);
    assert_eq!(d.step(Event::Readiness(true)), Action::Wait { timeout_millis: 60_000 });
    assert_eq!(d.stage(), Stage::Wait);
}

#[test]
fn engine_deadline_is_the_wait_time() {
    let mut d = Driver::new();
    d.step(Event::Delay(Some(1_500)));
    assert_eq!(d.timeout_millis(), 1_500);
    d.step(Event::Sent);
    assert_eq!(d.step(Event::Readiness(true)), Action::Wait { timeout_millis: 1_500 });
    assert_eq!(d.step(Event::Waited(wakeup(true, false, false, false))), Action::Poll);
}

#[test]
fn wake_during_long_wait_leads_to_poll() {
    let mut d = Driver::new();
    d.step(Event::Delay(Some(60_000)));
    d.step(Event::Sent);
    d.step(Event::Readiness(true));
    assert_eq!(d.step(Event::Waited(wakeup(false, false, true, false))), Action::Poll);
    assert_eq!(d.stage(), Stage::Poll);
}

#[test]
fn device_readiness_ends_wait() {
    let mut d = Driver::new();
    d.step(Event::Delay(None));
    d.step(Event::Sent);
    d.step(Event::Readiness(true));
    assert_eq!(d.step(Event::Waited(wakeup(false, true, false, false))), Action::Poll);
}

#[test]
fn shutdown_stops_even_with_other_signals() {
    let mut d = Driver::new();
    d.step(Event::Delay(None));
    d.step(Event::Sent);
    d.step(Event::Readiness(true));
    assert_eq!(d.step(Event::Waited(wakeup(true, true, true, true))), Action::Exit);
    assert_eq!(d.stage(), Stage::Stopped);
    assert!(d.is_finished());
    assert_eq!(d.step(Event::Polled(PollOutcome::Changed)), Action::Exit);
    assert_eq!(d.step(Event::Delay(Some(5))), Action::Exit);
    assert_eq!(d.stage(), Stage::Stopped);
}

#[test]
fn engine_errors_do_not_end_loop() {
    for outcome in [
        PollOutcome::Changed,
        PollOutcome::Unchanged,
        PollOutcome::Dropped,
        PollOutcome::Failed,
    ] {
        let mut d = Driver::new();
        d.step(Event::Delay(None));
        d.step(Event::Sent);
        d.step(Event::Readiness(false));
        assert_eq!(d.step(Event::Polled(outcome)), Action::AskDelay);
        assert_eq!(d.stage(), Stage::Plan);
        assert!(!d.is_finished());
    }
}

#[test]
fn ready_device_skips_wait() {
    let mut d = Driver::new();
    d.step(Event::Delay(Some(10)));
    d.step(Event::Sent);
    assert_eq!(d.step(Event::Readiness(false)), Action::Poll);
    assert_eq!(d.stage(), Stage::Poll);
}

#[test]
fn send_failure_aborts() {
    let mut d = Driver::new();
    d.step(Event::Delay(None));
    assert_eq!(d.step(Event::SendFailed), Action::Abort);
    assert_eq!(d.stage(), Stage::Aborted);
    assert!(d.is_finished());
    assert_eq!(d.step(Event::Sent), Action::Abort);
}

#[test]
fn unexpected_event_repeats_pending_action() {
    let mut d = Driver::new();
    assert_eq!(d.step(Event::Sent), Action::AskDelay);
    assert_eq!(d.step(Event::Polled(PollOutcome::Failed)), Action::AskDelay);
    d.step(Event::Delay(Some(42)));
    assert_eq!(d.step(Event::Delay(Some(7))), Action::Flush);
    assert_eq!(d.timeout_millis(), 42);
}

#[test]
fn iterations_repeat_in_order() {
    let mut d = Driver::new();
    for delay in [Some(3), None, Some(0)] {
        assert_eq!(d.step(Event::Delay(delay)), Action::Flush);
        assert_eq!(d.step(Event::Sent), Action::AskReadiness);
        let expected = delay.unwrap_or(60_000);
        assert_eq!(d.step(Event::Readiness(true)), Action::Wait { timeout_millis: expected });
        assert_eq!(d.step(Event::Waited(wakeup(true, false, false, false))), Action::Poll);
        assert_eq!(d.step(Event::Polled(PollOutcome::Unchanged)), Action::AskDelay);
    }
}
