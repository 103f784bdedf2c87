//! The vocabulary of a graceful shutdown and the laws that every protocol of this crate obeys.
//!
//! A graceful shutdown escalates: the child is asked to stop with `SIGINT`, then told with
//! `SIGTERM`, and finally killed, with a grace period between the steps. The owner performs
//! each [`Action`] and answers it with an [`Event`]; the protocol decides the next action.
use vstd::prelude::*;

verus! {

/// Seconds of grace that the child is given after each step of the escalation.
pub const GRACE_PERIOD_SECS: u64 = 2;

/// The polite signals sent before the final kill.
#[derive(Debug, Clone, Copy, PartialEq, Eq, Structural)]
pub enum Signal {
    /// `SIGINT`
    Interrupt,
    /// `SIGTERM`
    Terminate,
}

/// Where the error that ends a failed shutdown comes from.
#[derive(Debug, Clone, Copy, PartialEq, Eq, Structural)]
pub enum Failure {
    /// An I/O operation on the child (flushing its input, killing it) failed.
    Io,
    /// Sending a signal through the operating system failed.
    Unix,
}

/// How a shutdown ends.
#[derive(Debug, Clone, Copy, PartialEq, Eq, Structural)]
pub enum Outcome {
    /// Block until the child is freed; what that wait gives is the shutdown's result. When a
    /// `waitpid` has already reported the child's death, that report freed the child, so this
    /// wait finds no child and the shutdown ends with that error.
    Reap,
    /// The child had already exited: its status, just observed, is the shutdown's result.
    ReturnStatus,
    /// Give up with the error of the step just performed.
    Fail(Failure),
}

/// The kinds of status that a non-blocking `waitpid` reports.
#[derive(Debug, Clone, Copy, PartialEq, Eq, Structural)]
pub enum WaitKind {
    /// The child exited normally.
    Exited,
    /// The child was ended by a signal.
    Signaled,
    /// The child was stopped.
    Stopped,
    /// The child stopped on a ptrace event.
    PtraceEvent,
    /// The child stopped on a ptrace system call.
    PtraceSyscall,
    /// The child was resumed.
    Continued,
    /// The child has not changed state.
    StillAlive,
}

/// What the owner reports after performing an [`Action`].
#[derive(Debug, Clone, Copy, PartialEq, Eq, Structural)]
pub enum Event {
    /// The step finished without error: input closed, signal sent, pause over, kill sent,
    /// or a timed wait that ended within its time (whatever the wait itself returned).
    Completed,
    /// The step returned an error.
    Failed,
    /// Checking the child without blocking found it still running.
    ChildRunning,
    /// Checking the child without blocking found that it had exited.
    ChildExited,
    /// A non-blocking `waitpid` returned this kind of status.
    Polled(WaitKind),
    /// A timed wait ran out before the child exited.
    TimedOut,
}

/// A step that the owner performs for the protocol.
#[derive(Debug, Clone, Copy, PartialEq, Eq, Structural)]
pub enum Action {
    /// Flush the child's input, then close it.
    CloseInput,
    /// Close the child's output pipes.
    CloseOutputs,
    /// Check, without blocking, whether the child has exited.
    CheckExit,
    /// Send the signal to the child.
    Send(Signal),
    /// Block the current thread for this many seconds.
    Sleep(u64),
    /// Ask `waitpid` without blocking for the child's status.
    PollExit,
    /// Wait for the child to exit, for at most this many seconds.
    WaitFor(u64),
    /// Kill the child (`SIGKILL`).
    Kill,
    /// The shutdown is over and ends this way.
    Finish(Outcome),
}

/// How hard an action presses the child: 1 for `SIGINT`, 2 for `SIGTERM`, 3 for the kill,
/// 0 for every action that sends nothing.
pub open spec fn severity(action: Action) -> nat {
    match action {
        Action::Send(Signal::Interrupt) => 1,
        Action::Send(Signal::Terminate) => 2,
        Action::Kill => 3,
        _ => 0,
    }
}

/// Whether the event reports that the child is dead: it exited, or a signal ended it.
pub open spec fn reports_death(event: Event) -> bool {
    event == Event::ChildExited || event == Event::Polled(WaitKind::Exited) || event
        == Event::Polled(WaitKind::Signaled)
}

/// Whether `event` is one that performing `action` can produce.
pub open spec fn answers(action: Action, event: Event) -> bool {
    match action {
        Action::CloseInput | Action::Send(_) | Action::Kill => event == Event::Completed || event
            == Event::Failed,
        Action::CloseOutputs | Action::Sleep(_) => event == Event::Completed,
        Action::CheckExit => event == Event::ChildRunning || event == Event::ChildExited || event
            == Event::Failed,
        Action::PollExit => event is Polled || event == Event::Failed,
        Action::WaitFor(_) => event == Event::Completed || event == Event::TimedOut,
        Action::Finish(_) => false,
    }
}

impl Event {
    /// Whether this event reports the child dead.
    pub fn reports_death(&self) -> (dead: bool)
        ensures
            dead == reports_death(*self),
    {
        match self {
            Event::ChildExited => true,
            Event::Polled(WaitKind::Exited) => true,
            Event::Polled(WaitKind::Signaled) => true,
            _ => false,
        }
    }
}

/// A shutdown protocol: a state that names the pending action and moves on with each event.
pub trait Escalation: Sized {
    /// The action that this state waits to hear back from.
    spec fn pending(self) -> Action;

    /// The state after the pending action was answered with `event`.
    spec fn next(self, event: Event) -> Self;

    /// Whether the shutdown is over.
    spec fn is_finished(self) -> bool;

    /// The severity of the harshest action already asked for before this state.
    spec fn sent(self) -> nat;

    /// The most events that this state can still take before the shutdown is over.
    spec fn budget(self) -> nat;

    /// The obligations of one step, from which the laws below follow: an action that presses
    /// the child is always the next harder one, and only such an action raises what was sent.
    proof fn lemma_step(self, event: Event)
        ensures
            severity(self.pending()) > 0 ==> severity(self.pending()) == self.sent() + 1,
            !self.next(event).is_finished() ==> self.next(event).sent() == if severity(
                self.pending(),
            ) > 0 {
                severity(self.pending())
            } else {
                self.sent()
            },
            self.is_finished() ==> self.next(event) == self,
            self.is_finished() ==> self.pending() is Finish,
            self.is_finished() <==> self.budget() == 0,
            !self.is_finished() ==> self.next(event).budget() < self.budget(),
    ;
}

/// The actions asked for, in order, while the events are reported one by one: the pending
/// action of the first state, then the pending action after each event.
pub open spec fn trace<M: Escalation>(machine: M, events: Seq<Event>) -> Seq<Action>
    decreases events.len(),
{
    if events.len() == 0 {
        seq![machine.pending()]
    } else {
        seq![machine.pending()] + trace(machine.next(events[0]), events.drop_first())
    }
}

/// The state reached after the events are reported one by one.
pub open spec fn after<M: Escalation>(machine: M, events: Seq<Event>) -> M
    decreases events.len(),
{
    if events.len() == 0 {
        machine
    } else {
        after(machine.next(events[0]), events.drop_first())
    }
}

/// A trace holds one action for the starting state and one for each event.
pub proof fn lemma_trace_len<M: Escalation>(machine: M, events: Seq<Event>)
    ensures
        trace(machine, events).len() == events.len() + 1,
        trace(machine, events)[0] == machine.pending(),
    decreases events.len(),
{
    if events.len() > 0 {
        lemma_trace_len(machine.next(events[0]), events.drop_first());
    }
}

/// The trace seen from its `k`-th action on: that action is the one pending after the first
/// `k` events, and the actions after it are the trace of the state that the `k`-th event leads
/// to.
pub proof fn lemma_trace_at<M: Escalation>(machine: M, events: Seq<Event>, k: int)
    requires
        0 <= k < events.len(),
    ensures
        trace(machine, events)[k] == after(machine, events.take(k)).pending(),
        after(machine, events.take(k + 1)) == after(machine, events.take(k)).next(events[k]),
        forall|i: int|
            k < i < trace(machine, events).len() ==> #[trigger] trace(machine, events)[i] == trace(
                after(machine, events.take(k + 1)),
                events.skip(k + 1),
            )[i - k - 1],
    decreases k,
{
    lemma_trace_len(machine, events);
    let succ = machine.next(events[0]);
    let rest = events.drop_first();
    lemma_trace_len(succ, rest);
    let t = trace(machine, events);
    let u = trace(succ, rest);
    assert forall|i: int| 0 < i < t.len() implies t[i] == u[i - 1] by {}
    assert(events.take(k + 1).drop_first() =~= rest.take(k));
    assert(events.take(k + 1)[0] == events[0]);
    assert(after(machine, events.take(k + 1)) == after(succ, rest.take(k)));
    if k == 0 {
        assert(events.take(0) =~= Seq::<Event>::empty());
        assert(rest.take(0) =~= Seq::<Event>::empty());
        assert(events.skip(1) =~= rest);
        assert(after(succ, rest.take(0)) == succ);
    } else {
        lemma_trace_at(succ, rest, k - 1);
        assert(events.take(k).drop_first() =~= rest.take(k - 1));
        assert(events.take(k)[0] == events[0]);
        assert(after(machine, events.take(k)) == after(succ, rest.take(k - 1)));
        assert(events.skip(k + 1) =~= rest.skip(k));
        assert(events[k] == rest[k - 1]);
    }
}

/// The escalation never goes back: whatever the events, every action that presses the child
/// presses it harder than anything sent before the first state, and of any two such actions
/// the later one presses harder. So `SIGINT` comes before `SIGTERM`, which comes before the
/// kill, and each of them is asked for at most once.
pub proof fn lemma_escalation_order<M: Escalation>(machine: M, events: Seq<Event>)
    ensures
        forall|i: int|
            0 <= i < trace(machine, events).len() && severity(#[trigger] trace(machine, events)[i])
                > 0 ==> machine.sent() < severity(trace(machine, events)[i]),
        forall|i: int, j: int|
            0 <= i < j < trace(machine, events).len() && severity(
                #[trigger] trace(machine, events)[i],
            ) > 0 && severity(#[trigger] trace(machine, events)[j]) > 0 ==> severity(
                trace(machine, events)[i],
            ) < severity(trace(machine, events)[j]),
    decreases events.len(),
{
    lemma_trace_len(machine, events);
    machine.lemma_step(Event::Completed);
    if events.len() > 0 {
        let rest = events.drop_first();
        let succ = machine.next(events[0]);
        machine.lemma_step(events[0]);
        lemma_escalation_order(succ, rest);
        lemma_trace_len(succ, rest);
        let t = trace(machine, events);
        let u = trace(succ, rest);
        assert forall|i: int| 0 < i < t.len() implies t[i] == u[i - 1] by {}
        if succ.is_finished() {
            lemma_finished_is_final(succ, rest);
            succ.lemma_step(Event::Completed);
            assert forall|i: int| 0 <= i < u.len() implies severity(#[trigger] u[i]) == 0 by {
                assert(u[i] == succ.pending());
            }
        }
        assert forall|i: int|
            0 <= i < t.len() && severity(#[trigger] t[i]) > 0 implies machine.sent() < severity(
            t[i],
        ) by {
            if i > 0 {
                assert(t[i] == u[i - 1]);
            }
        }
        assert forall|i: int, j: int|
            0 <= i < j < t.len() && severity(#[trigger] t[i]) > 0 && severity(#[trigger] t[j])
                > 0 implies severity(t[i]) < severity(t[j]) by {
            assert(t[j] == u[j - 1]);
            if i > 0 {
                assert(t[i] == u[i - 1]);
            }
        }
    }
}

/// The escalation skips nothing: an action that presses the child harder than the next step
/// after what was already sent is always preceded by the step just below it. From a state
/// that sent nothing, `SIGTERM` is asked for only after `SIGINT`, and the kill only after
/// `SIGTERM`: what is sent is a prefix of `SIGINT`, `SIGTERM`, kill.
pub proof fn lemma_escalation_prefix<M: Escalation>(machine: M, events: Seq<Event>)
    ensures
        forall|i: int|
            0 <= i < trace(machine, events).len() && severity(#[trigger] trace(machine, events)[i])
                > machine.sent() + 1 ==> exists|j: int|
                0 <= j < i && severity(#[trigger] trace(machine, events)[j]) + 1 == severity(
                    trace(machine, events)[i],
                ),
    decreases events.len(),
{
    lemma_trace_len(machine, events);
    machine.lemma_step(Event::Completed);
    if events.len() > 0 {
        let rest = events.drop_first();
        let succ = machine.next(events[0]);
        machine.lemma_step(events[0]);
        lemma_escalation_prefix(succ, rest);
        lemma_trace_len(succ, rest);
        let t = trace(machine, events);
        let u = trace(succ, rest);
        assert forall|i: int| 0 < i < t.len() implies t[i] == u[i - 1] by {}
        if succ.is_finished() {
            lemma_finished_is_final(succ, rest);
            succ.lemma_step(Event::Completed);
            assert forall|i: int| 0 <= i < u.len() implies severity(#[trigger] u[i]) == 0 by {
                assert(u[i] == succ.pending());
            }
        }
        assert forall|i: int|
            0 <= i < t.len() && severity(#[trigger] t[i]) > machine.sent() + 1 implies exists|j: int|
            0 <= j < i && severity(#[trigger] t[j]) + 1 == severity(t[i]) by {
            assert(i > 0);
            assert(t[i] == u[i - 1]);
            if severity(t[0]) > 0 && severity(t[i]) == severity(t[0]) + 1 {
                assert(severity(t[0]) + 1 == severity(t[i]));
            } else {
                let k = choose|k: int|
                    0 <= k < i - 1 && severity(#[trigger] u[k]) + 1 == severity(u[i - 1]);
                assert(t[k + 1] == u[k]);
                assert(severity(t[k + 1]) + 1 == severity(t[i]));
            }
        }
    }
}

/// Once the event reported at position `k` finishes the protocol, every later action is the
/// one that finished it.
pub proof fn lemma_ends_at<M: Escalation>(machine: M, events: Seq<Event>, k: int)
    requires
        0 <= k < events.len(),
        after(machine, events.take(k)).next(events[k]).is_finished(),
    ensures
        forall|i: int|
            k < i < trace(machine, events).len() ==> #[trigger] trace(machine, events)[i] == after(
                machine,
                events.take(k),
            ).next(events[k]).pending(),
{
    lemma_trace_at(machine, events, k);
    let finished = after(machine, events.take(k)).next(events[k]);
    lemma_finished_is_final(finished, events.skip(k + 1));
    lemma_trace_len(machine, events);
    lemma_trace_len(finished, events.skip(k + 1));
}

/// A finished shutdown stays finished: further events change nothing and the final action
/// is asked for again.
pub proof fn lemma_finished_is_final<M: Escalation>(machine: M, events: Seq<Event>)
    requires
        machine.is_finished(),
    ensures
        after(machine, events) == machine,
        forall|i: int|
            0 <= i < trace(machine, events).len() ==> #[trigger] trace(machine, events)[i]
                == machine.pending(),
    decreases events.len(),
{
    lemma_trace_len(machine, events);
    if events.len() > 0 {
        machine.lemma_step(events[0]);
        lemma_finished_is_final(machine.next(events[0]), events.drop_first());
        let t = trace(machine, events);
        let u = trace(machine.next(events[0]), events.drop_first());
        assert forall|i: int| 0 <= i < t.len() implies #[trigger] t[i] == machine.pending() by {
            if i > 0 {
                assert(t[i] == u[i - 1]);
            }
        }
    }
}

/// Every shutdown ends: once as many events as its budget have been reported, whatever they
/// were, the protocol is finished.
pub proof fn lemma_finishes<M: Escalation>(machine: M, events: Seq<Event>)
    requires
        events.len() >= machine.budget(),
    ensures
        after(machine, events).is_finished(),
    decreases events.len(),
{
    machine.lemma_step(Event::Completed);
    if events.len() == 0 {
    } else if machine.is_finished() {
        lemma_finished_is_final(machine, events);
    } else {
        machine.lemma_step(events[0]);
        lemma_finishes(machine.next(events[0]), events.drop_first());
    }
}

} // verus!
