# proctor

Collection of telemetry for an elasticity controller, verified with Verus.

- `src/` is the library. Every function states what it returns or changes, and
  Verus proves it.
  - `phases/collection/clearinghouse.rs`: the clearinghouse, which takes in
    telemetry and serves each subscriber the fields that it asked for.
    `model.rs` describes it as a state machine over mathematical values,
    `laws.rs` proves what holds of it whatever happens, and `run.rs` describes
    the course of a run and proves how it ends.
  - `elements/`: telemetry records and field sets, the plan of a collection from
    a remote source, and the protocol of the policy filter.
  - `error/`: the errors of governance and their labels.
  - `graph/`: ports, and the links between them.
  - `channel.rs`, `text.rs`, `pairs.rs`: channels, conversions, and lists of
    pairs read as maps.
- `app/` runs the library: it waits for telemetry and commands, queries remote
  sources, loads policies into the engine, and sends what the library says is to be sent.
- `tests/` holds the tests.

What the library takes on trust of `tokio`, `oso` (the type of its errors),
`reqwest` and the standard library is stated where it is declared, in `channel.rs`, `text.rs`,
`elements/collection.rs` and `elements/policy_filter/protocol.rs`.
