# h2

The decisions of an HTTP/2 endpoint, verified with Verus: how frames are laid out on the wire, how
streams open and close, how flow control windows move, how pings and settings are answered, and what
a connection does next.

The library performs no I/O. Where an operation depends on the transport, one function says what is
to be done and another takes what came of it, so that every answer of the transport is covered by
the proofs.

- `src/` is the verified library.
  - `frame/` holds the frames and their wire format.
  - `proto/` holds the streams, flow control, pings, settings, the writer and the connection.
    `proto/laws.rs` states what holds of the streams of a connection as a whole.
  - `client.rs` and `server.rs` hold what the two sides differ in.
  - `buf.rs`, `header.rs` and `uri.rs` hold what the crate uses of `bytes`, `byteorder` and `http`.
- `tests/` runs the library, with the outside crates linked.
- `app/` puts the library on `futures` and `tokio-io`.
