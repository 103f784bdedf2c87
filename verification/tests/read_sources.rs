use pwner::async_process::ReadSource as PipedReadSource;
use pwner::read::{first_poll, FirstPoll, Pipe, ReadChoice};
use pwner::tokio::ReadSource;

const ALL_POLLS: [FirstPoll; 4] = [
    FirstPoll::Pending,
    FirstPoll::Data,
    FirstPoll::NoData,
    FirstPoll::Error,
];

#[test]
fn blocking_source_reads_its_own_pipe() {
    assert_eq!(pwner::process::ReadSource::Stdout.pipe(), Pipe::Stdout);
    assert_eq!(pwner::process::ReadSource::Stderr.pipe(), Pipe::Stderr);
}

#[test]
fn async_single_sources_never_fall_back() {
    assert_eq!(ReadSource::Stdout.first_pipe(), Pipe::Stdout);
    assert_eq!(ReadSource::Stderr.first_pipe(), Pipe::Stderr);
    for poll in ALL_POLLS {
        assert_eq!(ReadSource::Stdout.fallback_pipe(poll), None);
        assert_eq!(ReadSource::Stderr.fallback_pipe(poll), None);
    }
}

#[test]
fn async_both_prefers_stderr_data() {
    assert!(ReadSource::Both.reads_both());
    assert!(!ReadSource::Stdout.reads_both());
    assert_eq!(ReadSource::Both.first_pipe(), Pipe::Stderr);
    assert_eq!(ReadSource::Both.fallback_pipe(FirstPoll::Data), None);
    assert_eq!(ReadSource::Both.fallback_pipe(FirstPoll::Error), None);
    assert_eq!(ReadSource::Both.fallback_pipe(FirstPoll::Pending), Some(Pipe::Stdout));
}

#[test]
fn async_both_reads_stdout_after_stderr_ended() {
    assert_eq!(ReadSource::Both.fallback_pipe(FirstPoll::NoData), Some(Pipe::Stdout));
}

#[test]
fn piped_handle_sources_match_async_ones() {
    assert_eq!(PipedReadSource::Stdout.first_pipe(), Pipe::Stdout);
    assert_eq!(PipedReadSource::Stderr.first_pipe(), Pipe::Stderr);
    assert_eq!(PipedReadSource::Both.first_pipe(), Pipe::Stderr);
    for poll in ALL_POLLS {
        assert_eq!(PipedReadSource::Stdout.fallback_pipe(poll), None);
        assert_eq!(PipedReadSource::Stderr.fallback_pipe(poll), None);
    }
    assert_eq!(PipedReadSource::Both.fallback_pipe(FirstPoll::Pending), Some(Pipe::Stdout));
    assert_eq!(PipedReadSource::Both.fallback_pipe(FirstPoll::Data), None);
    assert_eq!(PipedReadSource::Both.fallback_pipe(FirstPoll::Error), None);
}

#[test]
fn piped_both_stops_at_stderr_end() {
    assert_eq!(PipedReadSource::Both.fallback_pipe(FirstPoll::NoData), None);
    assert_ne!(
        PipedReadSource::Both.fallback_pipe(FirstPoll::NoData),
        ReadSource::Both.fallback_pipe(FirstPoll::NoData)
    );
}

#[test]
fn first_poll_classification() {

    assert_eq!(first_poll(false, true, 3, 3), FirstPoll::Pending);
    assert_eq!(first_poll(false, false, 3, 9), FirstPoll::Pending);
    assert_eq!(first_poll(true, false, 0, 0), FirstPoll::Error);
    assert_eq!(first_poll(true, true, 2, 7), FirstPoll::Data);
    assert_eq!(first_poll(true, true, 4, 4), FirstPoll::NoData);
}

#[test]
fn read_sources_are_copy() {
    let source = ReadSource::Both;
    let copy = source;
    assert!(matches!(source, ReadSource::Both));
    assert!(matches!(copy, ReadSource::Both));
    let blocking = pwner::process::ReadSource::Stderr;
    assert!(matches!(blocking.clone(), pwner::process::ReadSource::Stderr));
}
