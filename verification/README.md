# dash

A small automotive-style infotainment system: navigation, media, voice and
settings services that talk only through a shared in-process message bus, and
a gateway that bridges the bus to a WebSocket frontend.

The library (`src/`) is verified with Verus:

- `common` — the event vocabulary (`Event`, `EventKind`, `ServiceId`,
  `CoreError`) and which service owns each command.
- `bus` — the publish/subscribe bus over a broadcast channel, what a
  receive reports, and `bus_loop`, what a service loop does over a whole run
  of receives.
- `media`, `nav`, `settings`, `voice` — each service's error type, domain
  types, versioned API (`v1`) with its contract over an abstract state, the
  implementation, and `runner::handle_event`, the decision a bus loop takes
  for one event.
- `gateway` — the client/server protocol and the per-frame decisions of a
  client connection.
- `text` — trimming, lowercasing, byte search and decimal `u8` syntax.
- `pipeline` — laws that span several services.

`app/` is the program around it: the async bus loops, the axum WebSocket
server, the JSON shapes (serde) and the error messages (thiserror).
