//! The decisions of the blocking process handle.
//!
//! The blocking handle reads from one pipe at a time, chosen with [`ReadSource`], and, when
//! dropped, shuts its child down with the blocking protocol [`Shutdown`]: after closing the
//! child's input it checks whether the child is still running; if so, it sends `SIGINT` and
//! asks `waitpid`, without blocking, whether the child died. Only if it is still alive does the
//! owner sleep through the grace period and ask again. If the child still did not die, it is
//! sent `SIGTERM` and given the same chance, and finally it is killed. In every case that does
//! not fail, the owner then blocks until the child is freed.
use vstd::prelude::*;
use crate::read::Pipe;
use crate::shutdown::{
    Action, Escalation, Event, Failure, Outcome, Signal, WaitKind, GRACE_PERIOD_SECS,
    answers, reports_death, severity, trace, after, lemma_trace_len, lemma_ends_at,
    lemma_escalation_prefix, lemma_finishes,
};

verus! {

/// Possible sources to read from
#[derive(Debug, Clone, Copy)]
pub enum ReadSource {
    /// Read from the child's stdout
    Stdout,
    /// Read from the child's stderr
    Stderr,
}

impl ReadSource {
    /// The pipe that this source reads from.
    pub open spec fn spec_pipe(self) -> Pipe {
        match self {
            ReadSource::Stdout => Pipe::Stdout,
            ReadSource::Stderr => Pipe::Stderr,
        }
    }

    /// The pipe that a read from this source is served from.
    pub fn pipe(self) -> (pipe: Pipe)
        ensures
            pipe == self.spec_pipe(),
    {
        match self {
            ReadSource::Stdout => Pipe::Stdout,
            ReadSource::Stderr => Pipe::Stderr,
        }
    }
}

/// The blocking graceful shutdown, as the step that it waits on.
#[derive(Debug, Clone, Copy, PartialEq, Eq, Structural)]
pub enum Shutdown {
    /// Flushing and closing the child's input.
    ClosingInput,
    /// Checking without blocking whether the child is still running.
    CheckingExit,
    /// Sending `SIGINT`.
    Interrupting,
    /// Asking `waitpid` at once whether `SIGINT` ended the child.
    CheckAfterInterrupt,
    /// Sleeping through the grace period after `SIGINT`.
    GraceAfterInterrupt,
    /// Asking `waitpid` whether the child died during the grace period.
    PollAfterInterrupt,
    /// Sending `SIGTERM`.
    Terminating,
    /// Asking `waitpid` at once whether `SIGTERM` ended the child.
    CheckAfterTerminate,
    /// Sleeping through the grace period after `SIGTERM`.
    GraceAfterTerminate,
    /// Asking `waitpid` whether the child died during the grace period.
    PollAfterTerminate,
    /// Killing the child.
    Killing,
    /// The shutdown is over.
    Finished(Outcome),
}

impl Escalation for Shutdown {
    open spec fn pending(self) -> Action {
        match self {
            Shutdown::ClosingInput => Action::CloseInput,
            Shutdown::CheckingExit => Action::CheckExit,
            Shutdown::Interrupting => Action::Send(Signal::Interrupt),
            Shutdown::CheckAfterInterrupt => Action::PollExit,
            Shutdown::GraceAfterInterrupt => Action::Sleep(GRACE_PERIOD_SECS),
            Shutdown::PollAfterInterrupt => Action::PollExit,
            Shutdown::Terminating => Action::Send(Signal::Terminate),
            Shutdown::CheckAfterTerminate => Action::PollExit,
            Shutdown::GraceAfterTerminate => Action::Sleep(GRACE_PERIOD_SECS),
            Shutdown::PollAfterTerminate => Action::PollExit,
            Shutdown::Killing => Action::Kill,
            Shutdown::Finished(outcome) => Action::Finish(outcome),
        }
    }

    /// Failing to close the input or to kill ends the shutdown with an I/O error, failing to
    /// signal ends it with the operating system's error. Only a child found running is
    /// signalled; after each signal, and again after each grace period, a `waitpid` that
    /// reports the child dead (exited, or ended by a signal) ends the escalation, and any
    /// other answer moves it on.
    open spec fn next(self, event: Event) -> Shutdown {
        match self {
            Shutdown::ClosingInput => if event == Event::Failed {
                Shutdown::Finished(Outcome::Fail(Failure::Io))
            } else {
                Shutdown::CheckingExit
            },
            Shutdown::CheckingExit => if event == Event::ChildRunning {
                Shutdown::Interrupting
            } else {
                Shutdown::Finished(Outcome::Reap)
            },
            Shutdown::Interrupting => if event == Event::Failed {
                Shutdown::Finished(Outcome::Fail(Failure::Unix))
            } else {
                Shutdown::CheckAfterInterrupt
            },
            Shutdown::CheckAfterInterrupt => if reports_death(event) {
                Shutdown::Finished(Outcome::Reap)
            } else {
                Shutdown::GraceAfterInterrupt
            },
            Shutdown::GraceAfterInterrupt => Shutdown::PollAfterInterrupt,
            Shutdown::PollAfterInterrupt => if reports_death(event) {
                Shutdown::Finished(Outcome::Reap)
            } else {
                Shutdown::Terminating
            },
            Shutdown::Terminating => if event == Event::Failed {
                Shutdown::Finished(Outcome::Fail(Failure::Unix))
            } else {
                Shutdown::CheckAfterTerminate
            },
            Shutdown::CheckAfterTerminate => if reports_death(event) {
                Shutdown::Finished(Outcome::Reap)
            } else {
                Shutdown::GraceAfterTerminate
            },
            Shutdown::GraceAfterTerminate => Shutdown::PollAfterTerminate,
            Shutdown::PollAfterTerminate => if reports_death(event) {
                Shutdown::Finished(Outcome::Reap)
            } else {
                Shutdown::Killing
            },
            Shutdown::Killing => if event == Event::Failed {
                Shutdown::Finished(Outcome::Fail(Failure::Io))
            } else {
                Shutdown::Finished(Outcome::Reap)
            },
            Shutdown::Finished(outcome) => Shutdown::Finished(outcome),
        }
    }

    open spec fn is_finished(self) -> bool {
        self is Finished
    }

    open spec fn sent(self) -> nat {
        match self {
            Shutdown::ClosingInput => 0,
            Shutdown::CheckingExit => 0,
            Shutdown::Interrupting => 0,
            Shutdown::CheckAfterInterrupt => 1,
            Shutdown::GraceAfterInterrupt => 1,
            Shutdown::PollAfterInterrupt => 1,
            Shutdown::Terminating => 1,
            Shutdown::CheckAfterTerminate => 2,
            Shutdown::GraceAfterTerminate => 2,
            Shutdown::PollAfterTerminate => 2,
            Shutdown::Killing => 2,
            Shutdown::Finished(_) => 3,
        }
    }

    open spec fn budget(self) -> nat {
        match self {
            Shutdown::ClosingInput => 11,
            Shutdown::CheckingExit => 10,
            Shutdown::Interrupting => 9,
            Shutdown::CheckAfterInterrupt => 8,
            Shutdown::GraceAfterInterrupt => 7,
            Shutdown::PollAfterInterrupt => 6,
            Shutdown::Terminating => 5,
            Shutdown::CheckAfterTerminate => 4,
            Shutdown::GraceAfterTerminate => 3,
            Shutdown::PollAfterTerminate => 2,
            Shutdown::Killing => 1,
            Shutdown::Finished(_) => 0,
        }
    }

    proof fn lemma_step(self, event: Event) {
    }
}

impl Shutdown {
    /// A shutdown that has not started: its first step closes the child's input.
    pub fn new() -> (shutdown: Shutdown)
        ensures
            shutdown == Shutdown::ClosingInput,
    {
        Shutdown::ClosingInput
    }

    /// The step to perform now.
    pub fn action(&self) -> (action: Action)
        ensures
            action == self.pending(),
    {
        match *self {
            Shutdown::ClosingInput => Action::CloseInput,
            Shutdown::CheckingExit => Action::CheckExit,
            Shutdown::Interrupting => Action::Send(Signal::Interrupt),
            Shutdown::CheckAfterInterrupt => Action::PollExit,
            Shutdown::GraceAfterInterrupt => Action::Sleep(GRACE_PERIOD_SECS),
            Shutdown::PollAfterInterrupt => Action::PollExit,
            Shutdown::Terminating => Action::Send(Signal::Terminate),
            Shutdown::CheckAfterTerminate => Action::PollExit,
            Shutdown::GraceAfterTerminate => Action::Sleep(GRACE_PERIOD_SECS),
            Shutdown::PollAfterTerminate => Action::PollExit,
            Shutdown::Killing => Action::Kill,
            Shutdown::Finished(outcome) => Action::Finish(outcome),
        }
    }

    /// Reports how the pending step went, and returns the step to perform next.
    pub fn step(&mut self, event: Event) -> (action: Action)
        ensures
            *final(self) == (*old(self)).next(event),
            action == (*final(self)).pending(),
    {
        let next = match *self {
            Shutdown::ClosingInput => if event == Event::Failed {
                Shutdown::Finished(Outcome::Fail(Failure::Io))
            } else {
                Shutdown::CheckingExit
            },
            Shutdown::CheckingExit => if event == Event::ChildRunning {
                Shutdown::Interrupting
            } else {
                Shutdown::Finished(Outcome::Reap)
            },
            Shutdown::Interrupting => if event == Event::Failed {
                Shutdown::Finished(Outcome::Fail(Failure::Unix))
            } else {
                Shutdown::CheckAfterInterrupt
            },
            Shutdown::CheckAfterInterrupt => if event.reports_death() {
                Shutdown::Finished(Outcome::Reap)
            } else {
                Shutdown::GraceAfterInterrupt
            },
            Shutdown::GraceAfterInterrupt => Shutdown::PollAfterInterrupt,
            Shutdown::PollAfterInterrupt => if event.reports_death() {
                Shutdown::Finished(Outcome::Reap)
            } else {
                Shutdown::Terminating
            },
            Shutdown::Terminating => if event == Event::Failed {
                Shutdown::Finished(Outcome::Fail(Failure::Unix))
            } else {
                Shutdown::CheckAfterTerminate
            },
            Shutdown::CheckAfterTerminate => if event.reports_death() {
                Shutdown::Finished(Outcome::Reap)
            } else {
                Shutdown::GraceAfterTerminate
            },
            Shutdown::GraceAfterTerminate => Shutdown::PollAfterTerminate,
            Shutdown::PollAfterTerminate => if event.reports_death() {
                Shutdown::Finished(Outcome::Reap)
            } else {
                Shutdown::Killing
            },
            Shutdown::Killing => if event == Event::Failed {
                Shutdown::Finished(Outcome::Fail(Failure::Io))
            } else {
                Shutdown::Finished(Outcome::Reap)
            },
            Shutdown::Finished(outcome) => Shutdown::Finished(outcome),
        };
        *self = next;
        self.action()
    }
}

/// A blocking shutdown is over after at most eleven reported events, whatever they were.
pub proof fn lemma_shutdown_ends(events: Seq<Event>)
    requires
        events.len() >= 11,
    ensures
        after(Shutdown::ClosingInput, events).is_finished(),
{
    lemma_finishes(Shutdown::ClosingInput, events);
}

/// What a blocking shutdown sends is a prefix of `SIGINT`, `SIGTERM`, kill: `SIGTERM` is
/// asked for only after `SIGINT`, and the kill only after `SIGTERM`.
pub proof fn lemma_signals_form_prefix(events: Seq<Event>)
    ensures
        forall|i: int|
            0 <= i < trace(Shutdown::ClosingInput, events).len() && severity(
                #[trigger] trace(Shutdown::ClosingInput, events)[i],
            ) > 1 ==> exists|j: int|
                0 <= j < i && severity(#[trigger] trace(Shutdown::ClosingInput, events)[j]) + 1
                    == severity(trace(Shutdown::ClosingInput, events)[i]),
{
    lemma_escalation_prefix(Shutdown::ClosingInput, events);
}

/// Once a check or a `waitpid` reports the child dead, the escalation stops: every step
/// after that report is the final wait. (After a `waitpid` report the child is already freed,
/// so that wait ends with an error.)
pub proof fn lemma_death_report_ends(events: Seq<Event>, k: int)
    requires
        0 <= k < events.len(),
        answers(trace(Shutdown::ClosingInput, events)[k], events[k]),
        reports_death(events[k]),
    ensures
        forall|i: int|
            k < i < trace(Shutdown::ClosingInput, events).len() ==> #[trigger] trace(
                Shutdown::ClosingInput,
                events,
            )[i] == Action::Finish(Outcome::Reap),
{
    crate::shutdown::lemma_trace_at(Shutdown::ClosingInput, events, k);
    let reached = after(Shutdown::ClosingInput, events.take(k));
    assert(reached.next(events[k]) == Shutdown::Finished(Outcome::Reap));
    lemma_ends_at(Shutdown::ClosingInput, events, k);
}

/// The child is signalled or killed only right after a check or a `waitpid` that did not
/// report it dead, and `SIGINT` only after the child was found running.
pub proof fn lemma_signal_needs_live_child(state: Shutdown, event: Event)
    requires
        answers(state.pending(), event),
        severity(state.next(event).pending()) > 0,
    ensures
        !reports_death(event),
        state.pending() == Action::CheckExit || state.pending() == Action::PollExit,
        state.pending() == Action::CheckExit ==> event == Event::ChildRunning,
{
}

/// `SIGTERM` and the kill come only right after a `waitpid` that did not report the child
/// dead, and that `waitpid` itself came right after the grace period's sleep.
pub proof fn lemma_harsh_step_follows_grace(events: Seq<Event>, i: int)
    requires
        0 <= i < trace(Shutdown::ClosingInput, events).len(),
        severity(trace(Shutdown::ClosingInput, events)[i]) >= 2,
    ensures
        i >= 2,
        trace(Shutdown::ClosingInput, events)[i - 1] == Action::PollExit,
        !reports_death(events[i - 1]),
        trace(Shutdown::ClosingInput, events)[i - 2] == Action::Sleep(GRACE_PERIOD_SECS),
{
    let start = Shutdown::ClosingInput;
    lemma_trace_len(start, events);
    if i == 1 {
        crate::shutdown::lemma_trace_at(start, events, 0);
        lemma_trace_len(after(start, events.take(1)), events.skip(1));
        assert(events.take(0) =~= Seq::<Event>::empty());
        assert(after(start, events.take(0)) == start);
    }
    if i >= 2 {
        crate::shutdown::lemma_trace_at(start, events, i - 1);
        crate::shutdown::lemma_trace_at(start, events, i - 2);
        lemma_trace_len(after(start, events.take(i)), events.skip(i));
        let before = after(start, events.take(i - 2));
        let polling = after(start, events.take(i - 1));
        let harsh = after(start, events.take(i));
        assert(trace(start, events)[i] == harsh.pending());
        assert(polling == before.next(events[i - 2]));
        assert(harsh == polling.next(events[i - 1]));
    }
}

/// After each signal that was sent, the child is checked at once without blocking; only if
/// it is not reported dead does it get the grace period, after which it is checked again.
pub proof fn lemma_grace_after_signal(state: Shutdown, sent: Event, check: Event, pause: Event)
    requires
        state.pending() is Send,
        sent != Event::Failed,
        !reports_death(check),
    ensures
        state.next(sent).pending() == Action::PollExit,
        state.next(sent).next(check).pending() == Action::Sleep(GRACE_PERIOD_SECS),
        state.next(sent).next(check).next(pause).pending() == Action::PollExit,
{
}

/// A step that fails ends the shutdown with its own error: an I/O error for closing the
/// input or killing, the operating system's error for a signal.
pub proof fn lemma_failure_ends(state: Shutdown)
    requires
        state.pending() == Action::CloseInput || state.pending() is Send || state.pending()
            == Action::Kill,
    ensures
        state.next(Event::Failed) == Shutdown::Finished(
            Outcome::Fail(if state.pending() is Send { Failure::Unix } else { Failure::Io }),
        ),
{
}

/// A running child that dies of `SIGINT` at once is not slept on and gets nothing more: its
/// input is closed, it is found running, interrupted, found dead and the owner waits for it.
pub proof fn lemma_quick_death(death: Event)
    requires
        answers(Action::PollExit, death),
        reports_death(death),
    ensures
        trace(
            Shutdown::ClosingInput,
            seq![Event::Completed, Event::ChildRunning, Event::Completed, death],
        ) == seq![
            Action::CloseInput,
            Action::CheckExit,
            Action::Send(Signal::Interrupt),
            Action::PollExit,
            Action::Finish(Outcome::Reap),
        ],
{
    reveal_with_fuel(trace, 5);
}

/// A running child that dies neither of `SIGINT` nor of `SIGTERM` goes through the whole
/// escalation: its input is closed, it is found running, interrupted, checked, given the grace
/// period, checked, terminated, checked, given the grace period, checked, killed, and waited
/// for.
pub proof fn lemma_unresponsive_child(first: Event, second: Event, third: Event, fourth: Event)
    requires
        answers(Action::PollExit, first),
        !reports_death(first),
        answers(Action::PollExit, second),
        !reports_death(second),
        answers(Action::PollExit, third),
        !reports_death(third),
        answers(Action::PollExit, fourth),
        !reports_death(fourth),
    ensures
        trace(
            Shutdown::ClosingInput,
            seq![
                Event::Completed,
                Event::ChildRunning,
                Event::Completed,
                first,
                Event::Completed,
                second,
                Event::Completed,
                third,
                Event::Completed,
                fourth,
                Event::Completed,
            ],
        ) == seq![
            Action::CloseInput,
            Action::CheckExit,
            Action::Send(Signal::Interrupt),
            Action::PollExit,
            Action::Sleep(GRACE_PERIOD_SECS),
            Action::PollExit,
            Action::Send(Signal::Terminate),
            Action::PollExit,
            Action::Sleep(GRACE_PERIOD_SECS),
            Action::PollExit,
            Action::Kill,
            Action::Finish(Outcome::Reap),
        ],
{
    reveal_with_fuel(trace, 12);
}

} // verus!
