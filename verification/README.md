# nanalive-link-receiver

The receiver side of NanaLive Link v1 for Windows: it pairs with one sender,
negotiates a stream, keeps the latest complete frame, and asks the sender to
adapt to the network.

- `src/` is the library. The rules of the receiver stand there, each with a
  contract that Verus proves: the session (`receiver`, with its model in `model`
  and the laws of whole sessions in `session_laws` and `history_laws`), network
  adaptation (`adaptive`), the connection and the transport around a session
  (`connection`, `transport`), start and serving (`startup`, `serving`), pairing
  and identity (`pairing`), and the bookkeeping of decoder, output and tray
  (`windows`). `crypto` holds the calls into other crates; their contracts are
  believed, not proved.
- `tests/` runs the library.
- `app/` is the program: files, sockets, the GPU and the tray. It does what the
  library asks for and hands back what came of it. The link, the wire protocol
  and the output run on Windows only. What is computed in floating point stands
  there too: the mean jitter and the colours of the composited frame.

Points in time are nanoseconds on the receiver's monotonic clock.
