# codex_workflow

The durable workflow runtime of a coding agent and its two integrations, as
a library verified with Verus, with the I/O around it kept apart.

A workflow run is a graph of nodes, each driven by an agent turn. The runtime
plans every external mutation as an effect in a write-ahead journal before it
performs it. It drives a run step by step under a lease, recovers runs after
a crash, and cancels them cooperatively. It collects approvals from people
in a Lark chat, and reports traces to Fornax.

## Layout

- `src/` — the verified library. Every function has a contract that Verus
  proves.
  - `runtime/` — the runtime:
    - effects and the outbox;
    - the driver and its lease;
    - recovery and cancellation;
    - node ensuring, dependencies and retries;
    - human interactions and approvals;
    - owned document updates;
    - artifacts, audit records and failure injection.
    
    The long-running operations take turns with the store. Each one is a
    state machine `(state, event) -> (state, action)`: the caller performs
    the action and hands back what came of it, and every decision is taken,
    and proved, here.
  - `integrations/lark/` — the `lark-cli` profile: identities, argument
    vectors, event decoding, paging, document search and member listing.
  - `integrations/fornax/` — the `fornax-cli` profile and the trace bridge:
    requests, redaction, span semantics, prompts, skills, evaluations.
  - `json.rs`, `text.rs`, `digest.rs`, `ids.rs`, `args.rs` — the values and
    text operations the rest is stated over.
- `app/` — ordinary Rust around the library: running child processes, JSON
  (de)serialisation, the HTTP client of the trace bridge, and the CLI
  operations that perform the state machines' actions.
- `tests/` — tests of the library's public functions on concrete values.

The outside crates are used through small trusted wrappers in `src/`, each
with its contract stated next to the call:
- `sha2` for digests;
- `uuid` for identifiers;
- `url` for endpoints;
- `semver` for CLI versions.
