# blockchain_handshake

A client for the Bitcoin peer-to-peer handshake: it connects to a node, runs
the version handshake, sends a ping and disconnects. The handshake only works
with peers of protocol version 70016.

The library under `src/` is verified with Verus:

- `serialization` — the byte reader and the encodings of integers, booleans,
  compact sizes, strings and timestamps, with read-back laws;
- `address` — IP and socket addresses and their 16-byte wire form;
- `message` — the handshake messages, their payload encodings, and the law
  that a message reads back from its own payload;
- `networking` — chains, commands, payload size limits, checksums, framing,
  and the law that a receiver reads back what was sent;
- `connection` — the client configuration, the handshake state machine, the
  handshake over in-memory streams and the ping, with the laws of the
  handshake;
- `testing` — base64 text for recorded traffic.

`app/` is the command-line program: argument parsing, name resolution,
TCP and the clock, driving the library's state machine over a socket.
