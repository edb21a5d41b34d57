# simpl_actor

Actor-based concurrency on Tokio, with its decisions verified by Verus.

- `src/` is the verified library:
  - `lifecycle.rs`: the life of an actor as a state machine (start, mailbox
    signals, concurrent read-only messages, exclusive messages, link deaths,
    panics, kill, stop), and `lifecycle_laws.rs`: what every run keeps.
  - `links.rs`: the table of linked actors, with the laws of linking.
  - `err.rs`, `reason.rs`, `text.rs`: send errors, panic payloads, stop
    reasons and their texts.
  - `actor.rs`, `internal.rs`, `stop_error_hook.rs`, `spawn.rs`: the default
    hook decisions, log lines, message handler steps and the `Spawn` trait.
  - `codegen/`: what the `#[actor]` code generator plans for an `impl`
    block: which methods are messages, the names and generics of the
    generated items, and the lifetime names of borrowed message fields.
- `app/` is the runtime around it: the `Actor` and `ActorRef` traits, the
  Tokio task that performs what the lifecycle decides, the stop error hook,
  and the token generation with `syn` and `quote`.
- `tests/` runs the library on concrete values.
