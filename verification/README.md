# axonflow-sdk-rust

A client for the AxonFlow governance platform whose rules are verified with
Verus.

## Layout

- `src/` is the verified library: every decision the client takes, with a
  contract.
  - `config` — the configuration, its builders, and a rendering that never
    shows a credential.
  - `client` — what a client is built with (headers, try mode, TLS posture),
    the proxy's rules (mutations, fail-open, the retry allowlist and its
    backoff), and the per-user identity: which token is stamped, and only on
    the configured origin.
  - `read_identity` — the read-scope contract: how a scope header reads, and
    when an empty or missing answer is the caller's scope rather than the data.
  - `query` — percent-encoding of path segments, the listing queries, and the
    URLs and errors of the decision and approval-queue reads.
  - `pep` — discharging the obligations of an allow: the walk over them, the
    fail-closed checks, and what a redaction engine's answer means.
  - `pep_handshake` — the capability declaration: the platform's validation
    rules, the canonical document and its encoding, and the routes that carry it.
  - `authzen` — the three-state attributes, the envelope's validation (an
    unresolved attribute is refused before anything is sent), and how an answer
    becomes a decision or a typed refusal.
  - `typed_policies` — typed policy refusals, `Retry-After`, and when an answer
    is usable.
  - `heartbeat` — the telemetry throttle (cadence, coalescing, failure
    backoff), the shared budget, endpoint classification, the adapter registry
    and the payload.
  - `interceptors` — the prompt, the refusal and the audit summary of wrapped
    provider calls.
  - `types` — the data the platform exchanges, and the policy category
    vocabulary.
  - `text`, `order` — string and ordering lemmas the rest is proved with.
- `app/` is ordinary Rust around the library: the HTTP transport, the async
  entry points, the cache, the telemetry task, and the JSON shapes.
- `tests/` runs the library on concrete values.

Durations are carried as milliseconds (`u64`) and instants as seconds since
the Unix epoch (`i64`).
