# internet-radio-mcp

An MCP server that exposes internet radio search and playback as callable tools,
with its decisions verified in Verus.

| Tool | Description |
|---|---|
| `radio_search` | Search for stations by name or genre/tag via the Radio Browser directory |
| `radio_play` | Start playback of a station (by stream URL or Radio Browser UUID) via `mpv` |
| `radio_stop` | Stop the station that is playing (terminates the tracked `mpv` process) |
| `radio_now_playing` | Return the name and URL of the station that is playing |

Both stdio and WebSocket are offered as transports.

## Layout

- `src/` is the verified library. It reaches nothing outside: a call is a sequence
  of steps, and each step says what to do next (send a request, read a body, stop
  or start a player) and which function takes what came of it.
  - `text`, `json`, `models`, `error`: the data, each with its mathematical contents
  - `operations::radio`: requests to the directory and what its answers mean, what
    may be played, and how a player is stopped
  - `ranking`: stations in the order of their votes
  - `playback`: what is playing, and the sequences that change it
  - `arguments`, `schema`, `call`: what tools are called with and how a call goes
  - `service`: the service and its tools
  - `tools`: a registry of the same tools that replies with plain JSON
- `app/` performs the steps: HTTP, processes, locking, logging and hosting.
- `tests/` runs the library.

Public proof functions whose names start with `law_` state what the library
promises beyond single functions.

## Notes

- `mpv` must be on `PATH` for playback, and audio comes out of the machine that
  runs the server.
- What is playing is kept in the process and is gone when the server restarts.
- `radio_play` takes exactly one of `url` and `uuid`. It stops the station that was
  playing before it starts a new stream; that this may fail is ignored.
- A play that fails leaves no player tracked and no station recorded, so that
  `radio_now_playing` says that nothing is playing.
- A stop that fails leaves the station recorded, as its player may still be playing
  it, but the player is not tracked any more.
- `radio_search` shows between one and fifty stations at most, best-voted first.
- `radio.upstream_failures` counts directory faults and players that do not start.
  An empty search result is not counted, and neither is an address that is refused
  before the player is reached.
