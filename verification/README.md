# focket-rs

A minimal node-graph / workflow orchestration engine, with its decisions proved
in [Verus](https://github.com/verus-lang/verus).

One durable primitive, a `prep → exec → post` **node** wired into a directed
graph, and the engine gets out of your way: hooks for tracing and error
recovery, cycle protection, retries, timeouts, cancellation, and bounded
parallelism.

## Layout

- `src/` is the verified library. It holds the graph and every decision of the
  engine; it runs no node and waits for nothing.
- `app/` is the asynchronous engine around it (tokio): it awaits what the library
  asks for and hands back what came of it.
- `tests/` runs the library's parts one by one (`parts.rs`), and whole flows
  through a small synchronous driver (`engine.rs`).

| Module | What it holds |
|--------|---------------|
| `node_core`, `flow_node`, `graph` | nodes, their config, params and edges |
| `cloning` | cloning a node with all that it leads to, cycles included |
| `hooks` | what hooks are told, and how several hook sets compose |
| `internal`, `pool` | the race against timeout and cancellation, retries, bounded parallelism |
| `node` | the lifecycle of a node, the order of its work, and how its `exec` is carried out |
| `flow` | traversal, step budget, top-level and nested runs |
| `batch_flow`, `subflow`, `fork_join` | bundles, isolated sub-flows, parallel branches |
| `json`, `signal` | what is taken from `serde_json` and `tokio_util` without proof |
| `laws` | what holds across the modules |

## How the machines work

Whatever takes time is a small state machine. It says what to do next, and is
told what came of it:

```rust
let mut attempts = retrying(max_retries, wait_ms);
loop {
    match attempts.settled(run()) {
        AfterAttempt::Done(r) => return r,
        AfterAttempt::GiveUp(e) => return fallback(e),
        AfterAttempt::Retry(b) => {
            let reply = fire(b.ctx(node, &shared, &path));
            attempts = b.fired(reply)?.next;
        }
    }
}
```

The contracts say of each step what the whole loop comes to, and the public proof
functions whose names begin with `law_` state what holds of every run: that there
are exactly `1 + max_retries` attempts, that a cancellation is neither retried nor
routed, that results keep item order, that no more items are in flight than there
are workers, that a node has a token exactly while it is inside a run, that a flow
follows its edges and never visits more than `max_steps` nodes, that a cloned graph behaves as its original
and that no edge or start of it leads back there (sub-flows and fork branches stay
shared).
