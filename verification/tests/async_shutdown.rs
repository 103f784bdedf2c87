use pwner::shutdown::{Action, Event, Failure, Outcome, Signal};

fn run(events: &[Event]) -> Vec<Action> {
    let mut machine = pwner::tokio::Shutdown::new();
    let mut actions = vec![machine.action()];
    for event in events {
        actions.push(machine.step(*event));
    }
    actions
}

fn run_piped(events: &[Event]) -> Vec<Action> {
    let mut machine = pwner::async_process::Shutdown::new();
    let mut actions = vec![machine.action()];
    for event in events {
        actions.push(machine.step(*event));
    }
    actions
}

fn severity(action: &Action) -> u8 {
    match action {
        Action::Send(Signal::Interrupt) => 1,
        Action::Send(Signal::Terminate) => 2,
        Action::Kill => 3,
        _ => 0,
    }
}

#[test]
fn async_unresponsive_child_is_escalated_to_kill() {
    let actions = run(&[
        Event::ChildRunning,
        Event::Completed,
        Event::TimedOut,
        Event::Completed,
        Event::TimedOut,
        Event::Completed,
    ]);
    assert_eq!(
        actions,
        vec![
            Action::CheckExit,
            Action::Send(Signal::Interrupt),
            Action::WaitFor(2),
            Action::Send(Signal::Terminate),
            Action::WaitFor(2),
            Action::Kill,
            Action::Finish(Outcome::Reap),
        ]
    );
}

#[test]
fn async_exited_child_returns_its_status() {
    assert_eq!(
        run(&[Event::ChildExited]),
        vec![Action::CheckExit, Action::Finish(Outcome::ReturnStatus)]
    );
}

#[test]
fn async_failed_check_is_an_io_error() {
    assert_eq!(
        run(&[Event::Failed]),
        vec![Action::CheckExit, Action::Finish(Outcome::Fail(Failure::Io))]
    );
}

#[test]
fn async_child_dying_of_interrupt_gets_nothing_more() {
    assert_eq!(
        run(&[Event::ChildRunning, Event::Completed, Event::Completed]),
        vec![
            Action::CheckExit,
            Action::Send(Signal::Interrupt),
            Action::WaitFor(2),
            Action::Finish(Outcome::Reap),
        ]
    );
}

#[test]
fn async_child_dying_of_terminate_is_not_killed() {
    let actions = run(&[
        Event::ChildRunning,
        Event::Completed,
        Event::TimedOut,
        Event::Completed,
        Event::Completed,
    ]);
    assert_eq!(actions[3], Action::Send(Signal::Terminate));
    assert_eq!(actions[5], Action::Finish(Outcome::Reap));
    assert!(!actions.contains(&Action::Kill));
}

#[test]
fn async_failures_end_the_shutdown() {
    let interrupt = run(&[Event::ChildRunning, Event::Failed]);
    assert_eq!(interrupt[2], Action::Finish(Outcome::Fail(Failure::Unix)));
    let kill = run(&[
        Event::ChildRunning,
        Event::Completed,
        Event::TimedOut,
        Event::Completed,
        Event::TimedOut,
        Event::Failed,
    ]);
    assert_eq!(kill[6], Action::Finish(Outcome::Fail(Failure::Io)));
}

#[test]
fn async_harsher_steps_need_a_timeout() {
    let calm = [Event::Completed, Event::Failed, Event::ChildRunning, Event::ChildExited];
    for a in calm {
        for b in calm {
            for c in calm {
                for d in calm {
                    assert!(run(&[a, b, c, d]).iter().all(|x| severity(x) <= 1));
                    assert!(run_piped(&[a, b, c, d]).iter().all(|x| severity(x) <= 1));
                }
            }
        }
    }
}

#[test]
fn piped_unresponsive_child_is_escalated_to_kill() {
    let actions = run_piped(&[
        Event::Completed,
        Event::Completed,
        Event::Completed,
        Event::TimedOut,
        Event::Completed,
        Event::TimedOut,
        Event::Completed,
    ]);
    assert_eq!(
        actions,
        vec![
            Action::CloseInput,
            Action::CloseOutputs,
            Action::Send(Signal::Interrupt),
            Action::WaitFor(2),
            Action::Send(Signal::Terminate),
            Action::WaitFor(2),
            Action::Kill,
            Action::Finish(Outcome::Reap),
        ]
    );
}

#[test]
fn piped_flush_failure_leaves_the_child_alone() {
    assert_eq!(
        run_piped(&[Event::Failed, Event::TimedOut, Event::TimedOut]),
        vec![
            Action::CloseInput,
            Action::Finish(Outcome::Fail(Failure::Io)),
            Action::Finish(Outcome::Fail(Failure::Io)),
            Action::Finish(Outcome::Fail(Failure::Io)),
        ]
    );
}

#[test]
fn async_runs_end_within_their_budgets_and_escalate_as_a_prefix() {
    let events = [Event::TimedOut, Event::Completed, Event::ChildRunning, Event::Failed];
    let mut seed: u64 = 7;
    for _ in 0..20_000 {
        let mut sequence = Vec::new();
        for _ in 0..7 {
            seed = seed.wrapping_mul(6364136223846793005).wrapping_add(1442695040888963407);
            sequence.push(events[((seed >> 33) % 4) as usize]);
        }
        let plain = run(&sequence[..6]);
        let piped = run_piped(&sequence);
        assert!(matches!(plain[6], Action::Finish(_)));
        assert!(matches!(piped[7], Action::Finish(_)));
        for actions in [plain, piped] {
            let levels: Vec<u8> = actions.iter().map(severity).filter(|l| *l > 0).collect();
            for (index, level) in levels.iter().enumerate() {
                assert_eq!(*level as usize, index + 1);
            }
        }
    }
}
