//! The decisions of the piped asynchronous handle, which keeps the child and all of its pipes
//! together.
//!
//! Its reads are chosen with [`ReadSource`] as in the asynchronous handle. Its shutdown,
//! [`Shutdown`], closes the child's input (after flushing it) and its outputs, and then
//! escalates as the asynchronous handle does once it found its child running: `SIGINT` at
//! once, a wait of the grace period, `SIGTERM` if that wait ran out, another wait, and the
//! kill if that one ran out too; then it waits until the child is freed.
use vstd::prelude::*;
use crate::read::{FirstPoll, Pipe, ReadChoice};
use crate::shutdown::{
    Action, Escalation, Event, Failure, Outcome, Signal, GRACE_PERIOD_SECS, severity, trace,
    after, lemma_escalation_prefix, lemma_finishes,
};

verus! {

/// Possible sources to read from
#[derive(Debug, Clone, Copy)]
pub enum ReadSource {
    /// Read from the child's stdout
    Stdout,
    /// Read from the child's stderr
    Stderr,
    /// Read from whichever has data available, the child's stdout or stderr
    Both,
}

impl ReadChoice for ReadSource {
    open spec fn spec_first_pipe(self) -> Pipe {
        match self {
            ReadSource::Stdout => Pipe::Stdout,
            ReadSource::Stderr | ReadSource::Both => Pipe::Stderr,
        }
    }

    open spec fn spec_reads_both(self) -> bool {
        self is Both
    }

    /// A read from both pipes falls back to standard output only when standard error had nothing ready: a
    /// ready standard error, even at its end, is what the read returns.
    open spec fn spec_fallback_pipe(self, first: FirstPoll) -> Option<Pipe> {
        if self is Both && (first == FirstPoll::Pending) {
            Some(Pipe::Stdout)
        } else {
            None
        }
    }

    fn first_pipe(&self) -> (pipe: Pipe) {
        match self {
            ReadSource::Stdout => Pipe::Stdout,
            ReadSource::Stderr | ReadSource::Both => Pipe::Stderr,
        }
    }

    fn reads_both(&self) -> (both: bool) {
        matches!(self, ReadSource::Both)
    }

    fn fallback_pipe(&self, first: FirstPoll) -> (pipe: Option<Pipe>) {
        if matches!(self, ReadSource::Both) && (first == FirstPoll::Pending) {
            Some(Pipe::Stdout)
        } else {
            None
        }
    }

    proof fn lemma_choice(self, first: FirstPoll) {
    }
}

/// A read from both pipes reads standard output only when standard error had nothing
/// ready; a standard error that is ready without bytes (at its end) ends the read.
pub proof fn lemma_both_stops_at_stderr_end(first: FirstPoll)
    ensures
        ReadSource::Both.spec_fallback_pipe(first) == Some(Pipe::Stdout) <==> first
            == FirstPoll::Pending,
        ReadSource::Both.spec_fallback_pipe(FirstPoll::NoData) is None,
{
}

/// The graceful shutdown of the piped asynchronous handle, as the step that it waits on.
#[derive(Debug, Clone, Copy, PartialEq, Eq, Structural)]
pub enum Shutdown {
    /// Flushing and closing the child's input.
    ClosingInput,
    /// Closing the child's output pipes.
    ClosingOutputs,
    /// Escalating, as the asynchronous handle does.
    Escalating(crate::tokio::Shutdown),
}

impl Escalation for Shutdown {
    open spec fn pending(self) -> Action {
        match self {
            Shutdown::ClosingInput => Action::CloseInput,
            Shutdown::ClosingOutputs => Action::CloseOutputs,
            Shutdown::Escalating(inner) => inner.pending(),
        }
    }

    /// Failing to flush the input ends the shutdown with an I/O error and leaves the child
    /// alone; otherwise the outputs are closed too and the child is sent `SIGINT`, from where
    /// the escalation goes on as for the asynchronous handle.
    open spec fn next(self, event: Event) -> Shutdown {
        match self {
            Shutdown::ClosingInput => if event == Event::Failed {
                Shutdown::Escalating(
                    crate::tokio::Shutdown::Finished(Outcome::Fail(Failure::Io)),
                )
            } else {
                Shutdown::ClosingOutputs
            },
            Shutdown::ClosingOutputs => Shutdown::Escalating(crate::tokio::Shutdown::Interrupting),
            Shutdown::Escalating(inner) => Shutdown::Escalating(inner.next(event)),
        }
    }

    open spec fn is_finished(self) -> bool {
        self matches Shutdown::Escalating(inner) && inner.is_finished()
    }

    open spec fn sent(self) -> nat {
        match self {
            Shutdown::ClosingInput | Shutdown::ClosingOutputs => 0,
            Shutdown::Escalating(inner) => inner.sent(),
        }
    }

    open spec fn budget(self) -> nat {
        match self {
            Shutdown::ClosingInput => 7,
            Shutdown::ClosingOutputs => 6,
            Shutdown::Escalating(inner) => inner.budget(),
        }
    }

    proof fn lemma_step(self, event: Event) {
        if let Shutdown::Escalating(inner) = self {
            inner.lemma_step(event);
        }
    }
}

impl Shutdown {
    /// A shutdown that has not started: its first step closes the child's input.
    pub fn new() -> (shutdown: Shutdown)
        ensures
            shutdown == Shutdown::ClosingInput,
    {
        Shutdown::ClosingInput
    }

    /// The step to perform now.
    pub fn action(&self) -> (action: Action)
        ensures
            action == self.pending(),
    {
        match self {
            Shutdown::ClosingInput => Action::CloseInput,
            Shutdown::ClosingOutputs => Action::CloseOutputs,
            Shutdown::Escalating(inner) => inner.action(),
        }
    }

    /// Reports how the pending step went, and returns the step to perform next.
    pub fn step(&mut self, event: Event) -> (action: Action)
        ensures
            *final(self) == (*old(self)).next(event),
            action == (*final(self)).pending(),
    {
        let next = match *self {
            Shutdown::ClosingInput => if event == Event::Failed {
                Shutdown::Escalating(
                    crate::tokio::Shutdown::Finished(Outcome::Fail(Failure::Io)),
                )
            } else {
                Shutdown::ClosingOutputs
            },
            Shutdown::ClosingOutputs => Shutdown::Escalating(crate::tokio::Shutdown::Interrupting),
            Shutdown::Escalating(inner) => {
                let mut inner = inner;
                inner.step(event);
                Shutdown::Escalating(inner)
            },
        };
        *self = next;
        self.action()
    }
}

/// A shutdown of the piped handle is over after at most seven reported events, whatever
/// they were.
pub proof fn lemma_shutdown_ends(events: Seq<Event>)
    requires
        events.len() >= 7,
    ensures
        after(Shutdown::ClosingInput, events).is_finished(),
{
    lemma_finishes(Shutdown::ClosingInput, events);
}

/// What a shutdown of the piped handle sends is a prefix of `SIGINT`, `SIGTERM`, kill.
pub proof fn lemma_signals_form_prefix(events: Seq<Event>)
    ensures
        forall|i: int|
            0 <= i < trace(Shutdown::ClosingInput, events).len() && severity(
                #[trigger] trace(Shutdown::ClosingInput, events)[i],
            ) > 1 ==> exists|j: int|
                0 <= j < i && severity(#[trigger] trace(Shutdown::ClosingInput, events)[j]) + 1
                    == severity(trace(Shutdown::ClosingInput, events)[i]),
{
    lemma_escalation_prefix(Shutdown::ClosingInput, events);
}

/// `SIGTERM` and the kill come only right after a wait of the grace period that ran out;
/// `SIGINT` only right after the pipes were closed.
pub proof fn lemma_escalation_needs_timeout(state: Shutdown, event: Event)
    requires
        severity(state.next(event).pending()) > 0,
    ensures
        severity(state.next(event).pending()) == 1 ==> state == Shutdown::ClosingOutputs
            || state == Shutdown::Escalating(crate::tokio::Shutdown::CheckingExit),
        severity(state.next(event).pending()) > 1 ==> event == Event::TimedOut && state.pending()
            == Action::WaitFor(GRACE_PERIOD_SECS),
{
    if let Shutdown::Escalating(inner) = state {
        crate::tokio::lemma_escalation_needs_timeout(inner, event);
    }
}

/// A wait that ends within the grace period ends the escalation: the next step is the final
/// wait, and the shutdown is over.
pub proof fn lemma_death_in_time_ends(state: Shutdown, event: Event)
    requires
        state.pending() is WaitFor,
        event != Event::TimedOut,
    ensures
        state.next(event) == Shutdown::Escalating(crate::tokio::Shutdown::Finished(Outcome::Reap)),
        state.next(event).is_finished(),
{
}

/// After each signal that was sent, the child gets a wait of the grace period.
pub proof fn lemma_grace_after_signal(state: Shutdown, event: Event)
    requires
        state.pending() is Send,
        event != Event::Failed,
    ensures
        state.next(event).pending() == Action::WaitFor(GRACE_PERIOD_SECS),
{
    if let Shutdown::Escalating(inner) = state {
        crate::tokio::lemma_grace_after_signal(inner, event);
    }
}

/// A step that fails ends the shutdown with its own error: an I/O error for flushing the
/// input or killing the child, the operating system's error for a signal.
pub proof fn lemma_failure_ends(state: Shutdown)
    requires
        state.pending() == Action::CloseInput || state.pending() is Send || state.pending()
            == Action::Kill,
    ensures
        state.next(Event::Failed).is_finished(),
        state.next(Event::Failed).pending() == Action::Finish(
            Outcome::Fail(if state.pending() is Send { Failure::Unix } else { Failure::Io }),
        ),
{
    if let Shutdown::Escalating(inner) = state {
        crate::tokio::lemma_failure_ends(inner);
    }
}

/// A child that outlasts every wait goes through the whole escalation: its pipes are closed,
/// it is interrupted at once, waited on, terminated, waited on, killed and waited for.
pub proof fn lemma_unresponsive_child()
    ensures
        trace(
            Shutdown::ClosingInput,
            seq![
                Event::Completed,
                Event::Completed,
                Event::Completed,
                Event::TimedOut,
                Event::Completed,
                Event::TimedOut,
                Event::Completed,
            ],
        ) == seq![
            Action::CloseInput,
            Action::CloseOutputs,
            Action::Send(Signal::Interrupt),
            Action::WaitFor(GRACE_PERIOD_SECS),
            Action::Send(Signal::Terminate),
            Action::WaitFor(GRACE_PERIOD_SECS),
            Action::Kill,
            Action::Finish(Outcome::Reap),
        ],
{
    reveal_with_fuel(trace, 8);
}

} // verus!
