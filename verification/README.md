# shared_audio_clock

Server-side logic for a room in which browser clients share two DJ decks and
a crossfader. The server is the sole source of truth: clients send requests,
the server decides what happened and broadcasts canonical events, each deck
(and the crossfader) numbering its changes with a revision counter.

## Layout

- `src/` — the verified library (Verus):
  - `room.rs`: one deck's state (transport anchor, settings, cue point,
    loop) and the crossfader; scheduling of play/pause/restart/seek/cue
    release/tempo changes, the looped position formula, and laws about them.
  - `session.rs`: the whole room (two decks, crossfader, lead time, recently
    seen request ids) and the decision taken for each client message: the
    direct answers for the sender and the events for every client.
  - `protocol.rs`: client and server messages and their validation.
  - `clock.rs`: the monotonic server clock.
  - `config.rs`: meaning of the environment settings.
  - `tls.rs`: names for the self-signed certificate, the cached name list,
    and certificate generation.
- `app/` — the HTTP/WebSocket server around the library (axum, tokio,
  serde): JSON, sockets, files, environment.
- `tests/` — tests of the library.

## Units

Fractions that travel as decimals in JSON (playback rate, crossfader
position and curve) are held by the library as integers in parts per
billion (`protocol::PPB_ONE` is 1.0). UUIDs are held as `u128`, and the
client's clock-request timestamp as the bit pattern of the number it sent.
