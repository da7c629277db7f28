# switchyard_observability

Telemetry of a model router, written in Verus: what its spans, log events and metrics carry, and
how a server sets them up and flushes them.

The library decides and the host performs. A function that records something appends effects
(field writes, log events, metric readings) to a plain `Span`, and its contract says exactly which.
Setup and flush are functions from a step and its outcome to the next step.

- `src/vocabulary.rs`: the attribute keys and their values.
- `src/protocol.rs`: what telemetry reads of requests and responses.
- `src/span.rs`: spans as plain values, and what they show.
- `src/run.rs`, `src/run_laws.rs`: the span of an algorithm run, the span of a model call, and
  what holds of them.
- `src/root.rs`, `src/root_laws.rs`: the root span of a request, and what holds of it in whatever
  order things are recorded.
- `src/propagation.rs`: the W3C Trace Context of an incoming request.
- `src/config.rs`: what the environment decides.
- `src/setup.rs`: setting telemetry up once, and flushing it.
- `src/text.rs`: blank texts, comma-separated lists, case.
- `src/outside.rs`: the types and calls that are taken from outside crates on trust.
- `app/`: performs the effects and the steps through `tracing` and OpenTelemetry.
