# mu_app

The decision logic of a MU Online game client, written in Verus and proved
against its contracts.

- `command`, `control`, `request`, `router`, `http`, `emblem`, `text`: the
  client's HTTP control endpoint — command names, the state snapshot and its
  JSON, the payloads each command reads from a request, the routing of a
  request, and the text of the HTTP exchange.
- `session`, `ui`, `client`: the login session, the screen routes and states,
  and the client runtime's overall state.
- `packets`, `bootstrap`: server frames (rosters, letters, party, character
  and session packets) decoded into signals, and the bootstrap runtime that
  each signal moves, with the effects it asks of the mailbox, the party and
  the player's position.
- `chat`, `shells`, `panels`, `siege`, `gens`, `activities`, `screens`: the
  chat composer and what the on-screen shells decide — the paragraph and list
  layouts their bodies are written with, the roster lines, when a shell shows
  and asks for live data, which screen state it shows, and how live rosters
  are laid over a screen. The shells' full bodies, which lay out the engine's
  own screen models, are not part of the library.

`app/` holds the TCP control server that drives the library's endpoint.
