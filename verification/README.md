# Sentient TUI

A terminal client for [ArtifactsMMO](https://artifactsmmo.com): character
cards, a sidebar with the economy, world events, swarm demand, the Grand
Exchange feed and a minimap, and a footer log of every in-game action, all
updated live from the realtime WebSocket.

## Layout

- `src/` — the verified library (Verus). It holds the game-state model, the
  decoding of realtime notifications and REST responses, the session that
  every action passes through (and the effects it asks for), the WebSocket
  link's decisions, the image download bookkeeping, and the text, colours
  and layout arithmetic of every panel. Contracts state what each function
  returns; `pub proof fn …_law` items state the properties that span calls
  (bounded logs and feeds, unique character names, wrap-around selection,
  reveal windows, idempotent character updates, and more).
- `tests/` — tests of the library on concrete values.
- `app/` — the program around the library: the terminal, the event loop,
  network and disk I/O, image rendering and effects.

## Running

Set `ARTIFACTS_TOKEN` (a `.env` file works too). Optionally set
`BOT_CONTROL_API_URL` and `BOT_SYNC_API_URL` for a local bot control server.
Keys: `q` quits, `j`/Down/Tab and `k`/Up/Back-Tab move the selection,
`l` toggles the log.
