//! Which pipe a read is served from.
//!
//! A read from one pipe polls only that pipe. A read from both pipes polls standard error
//! first and falls back to standard output when standard error gave no data; each handle's
//! [`ReadChoice`] says exactly when (the asynchronous handle also reads past the end of
//! standard error, the piped one does not).
use vstd::prelude::*;

verus! {

/// One of the two output pipes of a child process.
#[derive(Debug, Clone, Copy, PartialEq, Eq, Structural)]
pub enum Pipe {
    /// The child's standard output.
    Stdout,
    /// The child's standard error.
    Stderr,
}

/// How the first poll of a read went.
#[derive(Debug, Clone, Copy, PartialEq, Eq, Structural)]
pub enum FirstPoll {
    /// The pipe had nothing ready.
    Pending,
    /// The pipe gave bytes.
    Data,
    /// The pipe was ready but gave no bytes: it reached its end, or the buffer had no room.
    NoData,
    /// The pipe reported an error.
    Error,
}

/// How the first poll of a read went, given whether the poll was ready, whether it succeeded,
/// and how much of the buffer was filled before and after it.
pub open spec fn spec_first_poll(
    ready: bool,
    succeeded: bool,
    filled_before: usize,
    filled_after: usize,
) -> FirstPoll {
    if !ready {
        FirstPoll::Pending
    } else if !succeeded {
        FirstPoll::Error
    } else if filled_after > filled_before {
        FirstPoll::Data
    } else {
        FirstPoll::NoData
    }
}

/// How the first poll of a read went: pending, failed, or ready with or without new bytes.
pub fn first_poll(
    ready: bool,
    succeeded: bool,
    filled_before: usize,
    filled_after: usize,
) -> (first: FirstPoll)
    ensures
        first == spec_first_poll(ready, succeeded, filled_before, filled_after),
        first == FirstPoll::Pending <==> !ready,
        first == FirstPoll::Error <==> ready && !succeeded,
        first == FirstPoll::Data <==> ready && succeeded && filled_after > filled_before,
        first == FirstPoll::NoData <==> ready && succeeded && filled_after <= filled_before,
{
    if !ready {
        FirstPoll::Pending
    } else if !succeeded {
        FirstPoll::Error
    } else if filled_after > filled_before {
        FirstPoll::Data
    } else {
        FirstPoll::NoData
    }
}

/// What the classification of a first poll means: a poll that was not ready is pending,
/// whatever the buffer holds; a ready poll that failed is an error; a ready poll that
/// succeeded gave data exactly when it added bytes to the buffer, however few. So the
/// classification ignores the buffer for a poll that was not ready, and two successful ready
/// polls are classified alike exactly when both or neither added bytes.
pub proof fn lemma_first_poll_meaning(
    ready: bool,
    succeeded: bool,
    filled_before: usize,
    filled_after: usize,
)
    ensures
        spec_first_poll(ready, succeeded, filled_before, filled_after) == FirstPoll::Pending
            <==> !ready,
        spec_first_poll(ready, succeeded, filled_before, filled_after) == FirstPoll::Error
            <==> ready && !succeeded,
        spec_first_poll(ready, succeeded, filled_before, filled_after) == FirstPoll::Data
            <==> ready && succeeded && filled_after > filled_before,
        spec_first_poll(ready, succeeded, filled_before, filled_after) == FirstPoll::NoData
            <==> ready && succeeded && filled_after <= filled_before,
        forall|other_before: usize, other_after: usize|
            !ready ==> #[trigger] spec_first_poll(ready, succeeded, other_before, other_after)
                == spec_first_poll(ready, succeeded, filled_before, filled_after),
        forall|added: usize|
            ready && succeeded && 0 < added && filled_before + added <= usize::MAX ==> #[trigger] spec_first_poll(
                ready,
                succeeded,
                filled_before,
                (filled_before + added) as usize,
            ) == FirstPoll::Data,
{
}

/// A choice of the pipes that reads are served from.
pub trait ReadChoice: Sized {
    /// The pipe that a read polls first.
    spec fn spec_first_pipe(self) -> Pipe;

    /// Whether a read takes data from both pipes.
    spec fn spec_reads_both(self) -> bool;

    /// The pipe that a read polls after the first one, given how the first poll went, if any.
    spec fn spec_fallback_pipe(self, first: FirstPoll) -> Option<Pipe>;

    /// The pipe that a read polls first.
    fn first_pipe(&self) -> (pipe: Pipe)
        ensures
            pipe == self.spec_first_pipe(),
    ;

    /// Whether a read takes data from both pipes.
    fn reads_both(&self) -> (both: bool)
        ensures
            both == self.spec_reads_both(),
    ;

    /// The pipe to poll after the first one, given how the first poll went, if any.
    fn fallback_pipe(&self, first: FirstPoll) -> (pipe: Option<Pipe>)
        ensures
            pipe == self.spec_fallback_pipe(first),
    ;

    /// What every choice obeys: a read from both pipes polls standard error first and, when
    /// that had nothing ready, standard output; a read from one pipe polls only that pipe; data
    /// or an error from the first pipe is never passed over.
    proof fn lemma_choice(self, first: FirstPoll)
        ensures
            self.spec_reads_both() ==> self.spec_first_pipe() == Pipe::Stderr,
            !self.spec_reads_both() ==> self.spec_fallback_pipe(first) is None,
            self.spec_reads_both() && first == FirstPoll::Pending ==> self.spec_fallback_pipe(
                first,
            ) == Some(Pipe::Stdout),
            first == FirstPoll::Data || first == FirstPoll::Error ==> self.spec_fallback_pipe(
                first,
            ) is None,
            self.spec_fallback_pipe(first) is Some ==> self.spec_fallback_pipe(first) == Some(
                Pipe::Stdout,
            ),
    ;
}

/// The pipes that one read polls, in order, given how the first poll went.
pub open spec fn polled<S: ReadChoice>(source: S, first: FirstPoll) -> Seq<Pipe> {
    match source.spec_fallback_pipe(first) {
        Some(pipe) => seq![source.spec_first_pipe(), pipe],
        None => seq![source.spec_first_pipe()],
    }
}

/// A read polls each pipe at most once. A read from one pipe polls only that pipe. A read
/// from both pipes polls standard error first, polls standard output whenever standard error
/// had nothing ready, and never when standard error gave data or an error.
pub proof fn lemma_read_order<S: ReadChoice>(source: S, first: FirstPoll)
    ensures
        1 <= polled(source, first).len() <= 2,
        polled(source, first).len() == 2 ==> polled(source, first)[0] != polled(source, first)[1],
        !source.spec_reads_both() ==> polled(source, first) == seq![source.spec_first_pipe()],
        source.spec_reads_both() ==> polled(source, first)[0] == Pipe::Stderr,
        source.spec_reads_both() && first == FirstPoll::Pending ==> polled(source, first).contains(
            Pipe::Stdout,
        ),
        first == FirstPoll::Data || first == FirstPoll::Error ==> polled(source, first) == seq![
            source.spec_first_pipe(),
        ],
{
    source.lemma_choice(first);
    if source.spec_fallback_pipe(first) is Some {
        assert(polled(source, first)[1] == Pipe::Stdout);
    }
}

} // verus!
