# synapse (verified core)

The decision logic of the Synapse AI router, proved with Verus.

- `src/invalidate.rs` — constant-time secret comparison and the decision of the
  cache-invalidation endpoint.
- `src/billing.rs` — meter names, the meter updates one usage event becomes,
  the metadata attached to them, and laws about that plan.
- `src/ratelimit.rs` — the cache-backed rate limiter: construction, cache keys,
  window length and each step of a check.
- `src/routing.rs` — the ONNX strategy as built without the ONNX runtime, and
  the model selection step of its route.
- `src/anthropic.rs` — Anthropic wire types.

`app/` holds the I/O: JSON forms of the wire types, the background usage
recorder, the cache round trips of a rate-limit check and the HTTP handler.
