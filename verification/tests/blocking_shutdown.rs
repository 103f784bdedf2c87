use pwner::process::Shutdown;
use pwner::shutdown::{Action, Event, Failure, Outcome, Signal, WaitKind, GRACE_PERIOD_SECS};

fn run(events: &[Event]) -> Vec<Action> {
    let mut machine = Shutdown::new();
    let mut actions = vec![machine.action()];
    for event in events {
        actions.push(machine.step(*event));
    }
    actions
}

fn severity(action: &Action) -> u8 {
    match action {
        Action::Send(Signal::Interrupt) => 1,
        Action::Send(Signal::Terminate) => 2,
        Action::Kill => 3,
        _ => 0,
    }
}

const ALIVE: Event = Event::Polled(WaitKind::StillAlive);

#[test]
fn grace_period_is_two_seconds() {
    assert_eq!(GRACE_PERIOD_SECS, 2);
}

#[test]
fn blocking_unresponsive_child_is_escalated_to_kill() {
    let actions = run(&[
        Event::Completed,
        Event::ChildRunning,
        Event::Completed,
        ALIVE,
        Event::Completed,
        ALIVE,
        Event::Completed,
        ALIVE,
        Event::Completed,
        ALIVE,
        Event::Completed,
    ]);
    assert_eq!(
        actions,
        vec![
            Action::CloseInput,
            Action::CheckExit,
            Action::Send(Signal::Interrupt),
            Action::PollExit,
            Action::Sleep(2),
            Action::PollExit,
            Action::Send(Signal::Terminate),
            Action::PollExit,
            Action::Sleep(2),
            Action::PollExit,
            Action::Kill,
            Action::Finish(Outcome::Reap),
        ]
    );
}

#[test]
fn blocking_child_dying_at_once_is_not_slept_on() {
    for death in [Event::Polled(WaitKind::Exited), Event::Polled(WaitKind::Signaled)] {
        assert_eq!(
            run(&[Event::Completed, Event::ChildRunning, Event::Completed, death]),
            vec![
                Action::CloseInput,
                Action::CheckExit,
                Action::Send(Signal::Interrupt),
                Action::PollExit,
                Action::Finish(Outcome::Reap),
            ]
        );
    }
}

#[test]
fn blocking_child_dying_in_the_grace_period_gets_no_terminate() {
    let actions = run(&[
        Event::Completed,
        Event::ChildRunning,
        Event::Completed,
        ALIVE,
        Event::Completed,
        Event::Polled(WaitKind::Signaled),
    ]);
    assert_eq!(actions[5], Action::PollExit);
    assert_eq!(actions[6], Action::Finish(Outcome::Reap));
    assert!(!actions.contains(&Action::Send(Signal::Terminate)));
}

#[test]
fn blocking_child_dying_after_terminate_is_not_killed() {
    let actions = run(&[
        Event::Completed,
        Event::ChildRunning,
        Event::Completed,
        Event::Failed,
        Event::Completed,
        Event::Polled(WaitKind::Stopped),
        Event::Completed,
        Event::Polled(WaitKind::Exited),
    ]);
    assert_eq!(actions.len(), 9);
    assert_eq!(actions[6], Action::Send(Signal::Terminate));
    assert_eq!(actions[8], Action::Finish(Outcome::Reap));
    assert!(!actions.contains(&Action::Kill));
}

#[test]
fn blocking_exited_child_is_not_signalled() {
    assert_eq!(
        run(&[Event::Completed, Event::ChildExited]),
        vec![Action::CloseInput, Action::CheckExit, Action::Finish(Outcome::Reap)]
    );
    assert_eq!(
        run(&[Event::Completed, Event::Failed]),
        vec![Action::CloseInput, Action::CheckExit, Action::Finish(Outcome::Reap)]
    );
}

#[test]
fn blocking_flush_failure_is_an_io_error() {
    assert_eq!(
        run(&[Event::Failed]),
        vec![Action::CloseInput, Action::Finish(Outcome::Fail(Failure::Io))]
    );
}

#[test]
fn blocking_signal_failures_are_unix_errors() {
    let interrupt = run(&[Event::Completed, Event::ChildRunning, Event::Failed]);
    assert_eq!(interrupt[3], Action::Finish(Outcome::Fail(Failure::Unix)));
    let terminate = run(&[
        Event::Completed,
        Event::ChildRunning,
        Event::Completed,
        ALIVE,
        Event::Completed,
        Event::Polled(WaitKind::Continued),
        Event::Failed,
    ]);
    assert_eq!(terminate[7], Action::Finish(Outcome::Fail(Failure::Unix)));
}

#[test]
fn blocking_kill_failure_is_an_io_error() {
    let actions = run(&[
        Event::Completed,
        Event::ChildRunning,
        Event::Completed,
        ALIVE,
        Event::Completed,
        ALIVE,
        Event::Completed,
        ALIVE,
        Event::Completed,
        ALIVE,
        Event::Failed,
    ]);
    assert_eq!(actions[11], Action::Finish(Outcome::Fail(Failure::Io)));
}

#[test]
fn blocking_finished_shutdown_stays_finished() {
    let mut machine = Shutdown::new();
    assert_eq!(machine.step(Event::Failed), Action::Finish(Outcome::Fail(Failure::Io)));
    for event in [Event::Completed, Event::ChildRunning, Event::TimedOut] {
        assert_eq!(machine.step(event), Action::Finish(Outcome::Fail(Failure::Io)));
    }
    assert_eq!(machine, Shutdown::Finished(Outcome::Fail(Failure::Io)));
}

#[test]
fn death_reports() {
    assert!(Event::ChildExited.reports_death());
    assert!(Event::Polled(WaitKind::Exited).reports_death());
    assert!(Event::Polled(WaitKind::Signaled).reports_death());
    assert!(!Event::Polled(WaitKind::Stopped).reports_death());
    assert!(!Event::Polled(WaitKind::StillAlive).reports_death());
    assert!(!Event::Failed.reports_death());
}

const ALL_EVENTS: [Event; 12] = [
    Event::Completed,
    Event::Failed,
    Event::ChildRunning,
    Event::ChildExited,
    Event::TimedOut,
    Event::Polled(WaitKind::Exited),
    Event::Polled(WaitKind::Signaled),
    Event::Polled(WaitKind::Stopped),
    Event::Polled(WaitKind::PtraceEvent),
    Event::Polled(WaitKind::PtraceSyscall),
    Event::Polled(WaitKind::Continued),
    Event::Polled(WaitKind::StillAlive),
];

#[test]
fn blocking_every_run_ends_within_eleven_events_and_escalates_as_a_prefix() {
    let mut seed: u64 = 0x2545_f491_4f6c_dd1d;
    for _ in 0..20_000 {
        let mut events = Vec::new();
        for _ in 0..11 {
            seed = seed.wrapping_mul(6364136223846793005).wrapping_add(1442695040888963407);
            events.push(ALL_EVENTS[((seed >> 33) % 12) as usize]);
        }
        let actions = run(&events);
        assert!(matches!(actions[11], Action::Finish(_)));
        let levels: Vec<u8> = actions.iter().map(severity).filter(|l| *l > 0).collect();
        for (index, level) in levels.iter().enumerate() {
            assert_eq!(*level as usize, index + 1);
        }
    }
}
