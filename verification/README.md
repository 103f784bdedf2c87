# pwner

Owned child processes with graceful shutdown: a dropped handle sends its child `SIGINT`,
then `SIGTERM`, then kills it, with a grace period between the steps.

- `src/` is the verified library: the shutdown protocols as state machines with their
  laws (what is sent is a prefix of `SIGINT`, `SIGTERM`, kill; every shutdown ends within a
  fixed number of steps; a child reported dead is sent nothing more; a harsher step comes only
  after the child outlasted its grace period), the choice of the pipe a read is served from
  (a read from both pipes gets data from whichever has it), and the process identifiers.
- `app/` holds the handles themselves: they own the `std::process` and `tokio::process`
  children and pipes, and perform the steps that the protocols ask for.
- `tests/` runs the library on concrete values.
