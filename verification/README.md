# strim

Real-time audio streaming over TCP. A server captures audio from the default
input device and streams it to every connected client; a client connects
(retrying until the server is up), plays the stream on its default output
device, and reconnects when the connection is lost.

## Layout

- `src/` — the verified library (Verus):
  - `protocol.rs`: the messages, the sample formats, and the length-prefixed
    framing of encoded messages, with its round-trip and streaming laws;
  - `sample.rs`: the `AudioSample` trait, the little-endian encodings of
    16- and 32-bit integer samples, and the laws on runs of samples;
  - `server/`: turning captured samples into messages, the configuration
    announced to clients, and the bookkeeping of connected clients;
  - `client/`: filling output blocks from the received bytes, the choice of
    the playback configuration, and the decisions of the connection handling;
  - `cli.rs`, `cli_commands.rs`, `*/cli_commands.rs`: the argument types.
- `app/` — the program: devices, sockets, threads, signal handling, message
  (de)serialization with bincode, and floating-point samples.
- `tests/` — tests of the library.
