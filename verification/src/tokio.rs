//! The decisions of the asynchronous process handle.
//!
//! The asynchronous handle can read from either pipe or from whichever of the two has data
//! ([`ReadSource::Both`], see [`crate::read`]). Its shutdown, [`Shutdown`], first checks
//! whether the child already exited, and if so returns that status. Otherwise it sends
//! `SIGINT` and waits up to the grace period for the child to die; if the wait runs out it
//! sends `SIGTERM` and waits again; if that wait runs out too it kills the child. Then it waits
//! until the child is freed.
use vstd::prelude::*;
use crate::read::{FirstPoll, Pipe, ReadChoice};
use crate::shutdown::{
    Action, Escalation, Event, Failure, Outcome, Signal, GRACE_PERIOD_SECS, severity, trace,
    after, lemma_trace_at, lemma_ends_at, lemma_escalation_prefix, lemma_finishes,
};

verus! {

/// Possible sources to read from
#[derive(Debug, Clone, Copy)]
pub enum ReadSource {
    /// Read from the child's stdout
    Stdout,
    /// Read from the child's stderr
    Stderr,
    /// Read from whichever has data available, the child's stdout or stderr
    Both,
}

impl ReadChoice for ReadSource {
    open spec fn spec_first_pipe(self) -> Pipe {
        match self {
            ReadSource::Stdout => Pipe::Stdout,
            ReadSource::Stderr | ReadSource::Both => Pipe::Stderr,
        }
    }

    open spec fn spec_reads_both(self) -> bool {
        self is Both
    }

    /// A read from both pipes falls back to standard output whenever standard error gave no data: when it had
    /// nothing ready, and when it was ready without bytes (at its end), so the reader gets data
    /// from whichever pipe has it.
    open spec fn spec_fallback_pipe(self, first: FirstPoll) -> Option<Pipe> {
        if self is Both && (first == FirstPoll::Pending || first == FirstPoll::NoData) {
            Some(Pipe::Stdout)
        } else {
            None
        }
    }

    fn first_pipe(&self) -> (pipe: Pipe) {
        match self {
            ReadSource::Stdout => Pipe::Stdout,
            ReadSource::Stderr | ReadSource::Both => Pipe::Stderr,
        }
    }

    fn reads_both(&self) -> (both: bool) {
        matches!(self, ReadSource::Both)
    }

    fn fallback_pipe(&self, first: FirstPoll) -> (pipe: Option<Pipe>) {
        if matches!(self, ReadSource::Both) && (first == FirstPoll::Pending || first == FirstPoll::NoData) {
            Some(Pipe::Stdout)
        } else {
            None
        }
    }

    proof fn lemma_choice(self, first: FirstPoll) {
    }
}

/// A read from both pipes reads standard output exactly when standard error gave no data:
/// when standard error had nothing ready, and when it was ready without bytes (at its end).
pub proof fn lemma_both_reads_whichever_has_data(first: FirstPoll)
    ensures
        ReadSource::Both.spec_fallback_pipe(first) == Some(Pipe::Stdout) <==> (first
            == FirstPoll::Pending || first == FirstPoll::NoData),
        ReadSource::Both.spec_fallback_pipe(FirstPoll::NoData) == Some(Pipe::Stdout),
{
}

/// The asynchronous graceful shutdown, as the step that it waits on.
#[derive(Debug, Clone, Copy, PartialEq, Eq, Structural)]
pub enum Shutdown {
    /// Checking without blocking whether the child already exited.
    CheckingExit,
    /// Sending `SIGINT`.
    Interrupting,
    /// Waiting, at most the grace period, for the child to die of `SIGINT`.
    GraceAfterInterrupt,
    /// Sending `SIGTERM`.
    Terminating,
    /// Waiting, at most the grace period, for the child to die of `SIGTERM`.
    GraceAfterTerminate,
    /// Killing the child.
    Killing,
    /// The shutdown is over.
    Finished(Outcome),
}

impl Escalation for Shutdown {
    open spec fn pending(self) -> Action {
        match self {
            Shutdown::CheckingExit => Action::CheckExit,
            Shutdown::Interrupting => Action::Send(Signal::Interrupt),
            Shutdown::GraceAfterInterrupt => Action::WaitFor(GRACE_PERIOD_SECS),
            Shutdown::Terminating => Action::Send(Signal::Terminate),
            Shutdown::GraceAfterTerminate => Action::WaitFor(GRACE_PERIOD_SECS),
            Shutdown::Killing => Action::Kill,
            Shutdown::Finished(outcome) => Action::Finish(outcome),
        }
    }

    /// A child found running is sent `SIGINT` at once; a child found exited gives its status
    /// back; any other answer to the check ends the shutdown with an I/O error. After each
    /// signal the child is waited on; only a wait that runs out moves the escalation on, a wait
    /// that ends in time ends it. A failed signal ends the shutdown with the operating system's
    /// error, a failed kill with an I/O error.
    open spec fn next(self, event: Event) -> Shutdown {
        match self {
            Shutdown::CheckingExit => if event == Event::ChildRunning {
                Shutdown::Interrupting
            } else if event == Event::ChildExited {
                Shutdown::Finished(Outcome::ReturnStatus)
            } else {
                Shutdown::Finished(Outcome::Fail(Failure::Io))
            },
            Shutdown::Interrupting => if event == Event::Failed {
                Shutdown::Finished(Outcome::Fail(Failure::Unix))
            } else {
                Shutdown::GraceAfterInterrupt
            },
            Shutdown::GraceAfterInterrupt => if event == Event::TimedOut {
                Shutdown::Terminating
            } else {
                Shutdown::Finished(Outcome::Reap)
            },
            Shutdown::Terminating => if event == Event::Failed {
                Shutdown::Finished(Outcome::Fail(Failure::Unix))
            } else {
                Shutdown::GraceAfterTerminate
            },
            Shutdown::GraceAfterTerminate => if event == Event::TimedOut {
                Shutdown::Killing
            } else {
                Shutdown::Finished(Outcome::Reap)
            },
            Shutdown::Killing => if event == Event::Failed {
                Shutdown::Finished(Outcome::Fail(Failure::Io))
            } else {
                Shutdown::Finished(Outcome::Reap)
            },
            Shutdown::Finished(outcome) => Shutdown::Finished(outcome),
        }
    }

    open spec fn is_finished(self) -> bool {
        self is Finished
    }

    open spec fn sent(self) -> nat {
        match self {
            Shutdown::CheckingExit | Shutdown::Interrupting => 0,
            Shutdown::GraceAfterInterrupt | Shutdown::Terminating => 1,
            Shutdown::GraceAfterTerminate | Shutdown::Killing => 2,
            Shutdown::Finished(_) => 3,
        }
    }

    open spec fn budget(self) -> nat {
        match self {
            Shutdown::CheckingExit => 6,
            Shutdown::Interrupting => 5,
            Shutdown::GraceAfterInterrupt => 4,
            Shutdown::Terminating => 3,
            Shutdown::GraceAfterTerminate => 2,
            Shutdown::Killing => 1,
            Shutdown::Finished(_) => 0,
        }
    }

    proof fn lemma_step(self, event: Event) {
    }
}

impl Shutdown {
    /// A shutdown that has not started: its first step checks whether the child exited.
    pub fn new() -> (shutdown: Shutdown)
        ensures
            shutdown == Shutdown::CheckingExit,
    {
        Shutdown::CheckingExit
    }

    /// The step to perform now.
    pub fn action(&self) -> (action: Action)
        ensures
            action == self.pending(),
    {
        match *self {
            Shutdown::CheckingExit => Action::CheckExit,
            Shutdown::Interrupting => Action::Send(Signal::Interrupt),
            Shutdown::GraceAfterInterrupt => Action::WaitFor(GRACE_PERIOD_SECS),
            Shutdown::Terminating => Action::Send(Signal::Terminate),
            Shutdown::GraceAfterTerminate => Action::WaitFor(GRACE_PERIOD_SECS),
            Shutdown::Killing => Action::Kill,
            Shutdown::Finished(outcome) => Action::Finish(outcome),
        }
    }

    /// Reports how the pending step went, and returns the step to perform next.
    pub fn step(&mut self, event: Event) -> (action: Action)
        ensures
            *final(self) == (*old(self)).next(event),
            action == (*final(self)).pending(),
    {
        let next = match *self {
            Shutdown::CheckingExit => if event == Event::ChildRunning {
                Shutdown::Interrupting
            } else if event == Event::ChildExited {
                Shutdown::Finished(Outcome::ReturnStatus)
            } else {
                Shutdown::Finished(Outcome::Fail(Failure::Io))
            },
            Shutdown::Interrupting => if event == Event::Failed {
                Shutdown::Finished(Outcome::Fail(Failure::Unix))
            } else {
                Shutdown::GraceAfterInterrupt
            },
            Shutdown::GraceAfterInterrupt => if event == Event::TimedOut {
                Shutdown::Terminating
            } else {
                Shutdown::Finished(Outcome::Reap)
            },
            Shutdown::Terminating => if event == Event::Failed {
                Shutdown::Finished(Outcome::Fail(Failure::Unix))
            } else {
                Shutdown::GraceAfterTerminate
            },
            Shutdown::GraceAfterTerminate => if event == Event::TimedOut {
                Shutdown::Killing
            } else {
                Shutdown::Finished(Outcome::Reap)
            },
            Shutdown::Killing => if event == Event::Failed {
                Shutdown::Finished(Outcome::Fail(Failure::Io))
            } else {
                Shutdown::Finished(Outcome::Reap)
            },
            Shutdown::Finished(outcome) => Shutdown::Finished(outcome),
        };
        *self = next;
        self.action()
    }
}

/// An asynchronous shutdown is over after at most six reported events, whatever they were.
pub proof fn lemma_shutdown_ends(events: Seq<Event>)
    requires
        events.len() >= 6,
    ensures
        after(Shutdown::CheckingExit, events).is_finished(),
{
    lemma_finishes(Shutdown::CheckingExit, events);
}

/// What an asynchronous shutdown sends is a prefix of `SIGINT`, `SIGTERM`, kill.
pub proof fn lemma_signals_form_prefix(events: Seq<Event>)
    ensures
        forall|i: int|
            0 <= i < trace(Shutdown::CheckingExit, events).len() && severity(
                #[trigger] trace(Shutdown::CheckingExit, events)[i],
            ) > 1 ==> exists|j: int|
                0 <= j < i && severity(#[trigger] trace(Shutdown::CheckingExit, events)[j]) + 1
                    == severity(trace(Shutdown::CheckingExit, events)[i]),
{
    lemma_escalation_prefix(Shutdown::CheckingExit, events);
}

/// A child found already exited is not signalled: its status is the result.
pub proof fn lemma_exited_child_is_left_alone()
    ensures
        Shutdown::CheckingExit.next(Event::ChildExited) == Shutdown::Finished(
            Outcome::ReturnStatus,
        ),
{
}

/// A child found running is sent `SIGINT` at once, before any wait.
pub proof fn lemma_interrupt_at_once()
    ensures
        Shutdown::CheckingExit.next(Event::ChildRunning).pending() == Action::Send(
            Signal::Interrupt,
        ),
{
}

/// `SIGTERM` and the kill come only right after a wait of the grace period that ran out;
/// `SIGINT` only right after the child was found running.
pub proof fn lemma_escalation_needs_timeout(state: Shutdown, event: Event)
    requires
        severity(state.next(event).pending()) > 0,
    ensures
        severity(state.next(event).pending()) == 1 ==> state == Shutdown::CheckingExit && event
            == Event::ChildRunning,
        severity(state.next(event).pending()) > 1 ==> event == Event::TimedOut && state.pending()
            == Action::WaitFor(GRACE_PERIOD_SECS),
{
}

/// A wait that ends within the grace period ends the escalation: the child died, and the
/// next step, and every step after it, is the final wait.
pub proof fn lemma_death_in_time_ends(events: Seq<Event>, k: int)
    requires
        0 <= k < events.len(),
        trace(Shutdown::CheckingExit, events)[k] is WaitFor,
        events[k] != Event::TimedOut,
    ensures
        forall|i: int|
            k < i < trace(Shutdown::CheckingExit, events).len() ==> #[trigger] trace(
                Shutdown::CheckingExit,
                events,
            )[i] == Action::Finish(Outcome::Reap),
{
    lemma_trace_at(Shutdown::CheckingExit, events, k);
    let reached = after(Shutdown::CheckingExit, events.take(k));
    assert(reached.next(events[k]) == Shutdown::Finished(Outcome::Reap));
    lemma_ends_at(Shutdown::CheckingExit, events, k);
}

/// After each signal that was sent, the child gets a wait of the grace period.
pub proof fn lemma_grace_after_signal(state: Shutdown, event: Event)
    requires
        state.pending() is Send,
        event != Event::Failed,
    ensures
        state.next(event).pending() == Action::WaitFor(GRACE_PERIOD_SECS),
{
}

/// A step that fails ends the shutdown with its own error: an I/O error for checking or
/// killing the child, the operating system's error for a signal.
pub proof fn lemma_failure_ends(state: Shutdown)
    requires
        state.pending() == Action::CheckExit || state.pending() is Send || state.pending()
            == Action::Kill,
    ensures
        state.next(Event::Failed) == Shutdown::Finished(
            Outcome::Fail(if state.pending() is Send { Failure::Unix } else { Failure::Io }),
        ),
{
}

/// A running child that outlasts every wait goes through the whole escalation: it is found
/// running, interrupted at once, waited on, terminated, waited on, killed and waited for.
pub proof fn lemma_unresponsive_child()
    ensures
        trace(
            Shutdown::CheckingExit,
            seq![
                Event::ChildRunning,
                Event::Completed,
                Event::TimedOut,
                Event::Completed,
                Event::TimedOut,
                Event::Completed,
            ],
        ) == seq![
            Action::CheckExit,
            Action::Send(Signal::Interrupt),
            Action::WaitFor(GRACE_PERIOD_SECS),
            Action::Send(Signal::Terminate),
            Action::WaitFor(GRACE_PERIOD_SECS),
            Action::Kill,
            Action::Finish(Outcome::Reap),
        ],
{
    reveal_with_fuel(trace, 7);
}

/// A running child that dies of `SIGINT` within the grace period gets nothing more.
pub proof fn lemma_responsive_child()
    ensures
        trace(
            Shutdown::CheckingExit,
            seq![Event::ChildRunning, Event::Completed, Event::Completed],
        ) == seq![
            Action::CheckExit,
            Action::Send(Signal::Interrupt),
            Action::WaitFor(GRACE_PERIOD_SECS),
            Action::Finish(Outcome::Reap),
        ],
{
    reveal_with_fuel(trace, 4);
}

} // verus!
