//! Pwner owns child processes: it keeps their pipes for reading and writing and shuts them
//! down gracefully when the owner lets go of them.
//!
//! This crate holds the decisions that the owning handles make, each stated and proved:
//!
//! * [`pid`]: the process identifier through which a child is signalled;
//! * [`read`]: which pipe a read is served from;
//! * [`shutdown`]: the vocabulary of the graceful shutdown (the steps to perform, the reports
//!   that come back from them) and the laws that every shutdown protocol here obeys;
//! * [`process`]: the blocking shutdown protocol and the read source of the blocking handle;
//! * [`tokio`]: the asynchronous shutdown protocol and the read sources of the async handle;
//! * [`async_process`]: the protocol of the piped asynchronous handle, which closes all of
//!   its pipes before escalating.
//!
//! The protocols are state machines: the owner asks the machine for the pending step,
//! performs it against the operating system, reports the outcome, and repeats until the
//! machine finishes.
pub mod pid;
pub mod read;
pub mod shutdown;
pub mod process;
pub mod tokio;
pub mod async_process;
