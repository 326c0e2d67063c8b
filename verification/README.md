# bitcoin-peers

Connections to peers of the bitcoin network, and a crawler that discovers such peers, verified with
Verus.

- `src/` is the library. It decides and computes, and neither reads nor writes nor waits: the caller
  reports what has happened and is told what to do next. Every function states what it does, and
  Verus proves it. What Verus takes on trust is marked by `external_body`, `assume_specification`
  and `uninterp`, and stands in `wire.rs`, `address.rs`, `connection/handshake.rs` and
  `transport/error.rs`; the comment on each says what is believed of which call.
- `app/` runs the library on tokio: sockets, encryption, timeouts and tasks.
- `tests/` runs the library on given values.

The laws of the library are the public proof functions whose names begin with `law_`.
