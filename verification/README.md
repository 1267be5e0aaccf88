# SnapPipe

The core of a ticket-gated QUIC relay, verified with Verus.

A client proves with a signed ticket that it may use a relay. The relay checks
the ticket, the issuer's standing and the subject, then pumps the client's
streams upstream, charging each chunk to the client's request budget.

- `src/ticket.rs`, `src/keys.rs`, `src/node.rs`: tickets, Ed25519 keys,
  identities
- `src/session.rs`: the handshake on both sides, its framing and metrics
- `src/rate_limit.rs`: token buckets in exact integer arithmetic
- `src/relay/`: sessions (`pump.rs`), streams, statistics, and the listener's
  loops as state machines
- `src/quic/`: transport profiles for `quinn`, path diagnostics
- `app/`: sockets, tasks, locks, clocks and JSON around the library

Functions named `law_*` are theorems about the library as a whole. Trusted are
the contracts of the functions marked `external_body` in `src/keys.rs` and
`src/quic/transport.rs`, which call `ed25519_dalek` and `quinn`.
