# nats-agent

A generic NATS JetStream consumer that hands each event to an external handler
program, and a producer of sample events. The decisions are a Verus-verified
library; the I/O around them is a thin program.

- `src/` — the verified library
  - `text`, `number`: whitespace, trimming, splitting, decimal parsing and writing
  - `clock`: RFC 3339 text of moments after the epoch, and the current UTC time
  - `config`: settings from the values of the environment variables
  - `event`: a message body decoded as JSON (its `id` and compact text)
  - `handler`: what to run for an event and what its exit means
  - `processor`: the per-message state machine (run handler, acknowledge, measure, count)
  - `stats`: runtime counters and the health and status reports
  - `nats`: stream and consumer settings, error texts
  - `producer`: custom or sample event bodies
- `app/` — `main`, NATS and process I/O, HTTP endpoints, OpenTelemetry export
- `tests/` — tests of the library

The producer draws the random bytes of its UUIDs with `getrandom` directly, the
source `uuid` itself uses for `Uuid::new_v4`, so that a failing random source
becomes an error rather than a panic.
