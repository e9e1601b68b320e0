# mvp_kernel

The authorization core of a tool-execution kernel, verified with Verus.

Tools run inside a capability envelope. Every filesystem, network or session
operation a tool performs is first described as an *action*; the policy
pipeline decides the action, and only a `Granted` action — one backed by an
allow record — can be executed.

## Layout

- `src/` — the verified library.
  - `capability.rs` — capability slots and bit sets, with containment laws.
  - `text.rs`, `path.rs` — string helpers, component-wise path containment,
    canonical paths and the resolution of read and write targets.
  - `contract.rs`, `error.rs` — grant ids, per-policy grants, evaluations,
    reports, grant records and the error types.
  - `action.rs` — actions and their views (kind, capabilities, audit fields).
  - `policy.rs` — the built-in policies, each with its decision as a spec.
  - `pipeline.rs` — the staged pipeline (inbound, per-kind, outbound), its
    decision procedure proved against `spec_decide`, and the laws of
    registration order.
  - `grant.rs` — the grant step and the grant id allocator.
  - `runtime.rs` — the kernel runtime with its capability gate.
  - `tool.rs` — JSON payloads, the tool catalog, capability envelopes of
    top-level and nested invocations, and the built-in tools' input parsing.
  - `scoped.rs` — file, directory, workspace and URL grants and their
    downgrades.
  - `network.rs` — the deny-all and in-memory network backends.
  - `audit.rs` — the field values of audit records.
- `tests/` — tests of the library on concrete values.
- `app/` — a demo host: filesystem I/O with tokio, JSON with serde_json, and
  the audit stream with tracing, around the library.
