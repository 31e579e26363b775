# taskvisor

Supervision of asynchronous tasks on Tokio. The decisions of the supervisor are written in Verus
and proved; a thin layer of ordinary Rust around them waits, sends, spawns, and destroys.

## Layout

- `src/` is the verified library. `registry/` owns task membership: an entry moves from registered
  to removing to absent, and a force-aborted attempt keeps its name until it has physically exited.
  `runtime/` orders command admission, startup, static runs, and shutdown. `runner.rs` classifies
  one task attempt.
- `app/` is the Tokio runtime around the library. It performs the effects that a decision lists, in
  their order, and hands the results back.
- `tests/` exercises the library with real Tokio channels and tasks.

## How to read it

Each operation has a contract over the contents of its state (`view`) and over the list of effects
it returns. What holds across operations is stated in `registry/laws.rs`, `registry/reaper_laws.rs`,
`registry/reply_laws.rs`, and next to the functions it is about, as proof functions whose names
begin with `law_`.

The end of a removal is reported step by step: a committed removal is announced, its outcome is
delivered, and only what comes out of that can run the tail, whose effects wake the waiters.

User values never enter the library: they are parked by the runtime and named by a ticket. Channel
ends and task handles of Tokio do enter it, as opaque values. The calls that decisions depend on are
wrapped in `src/channel.rs`, each with what it is trusted to do.
