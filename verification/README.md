# stream_api

A small HTTP companion for live streams: chat-command counters (wins and
general counters, announced over websockets), canned chat sentences, hours
played of a Steam game, and the latest video or short of a YouTube channel.

- `src/` is the verified library (Verus): reading chat commands (trimming,
  lower-casing, splitting, parsing numbers), what each counter command does to
  the cache, sentence selection, the Steam and YouTube decisions, and the
  websocket decisions.
- `app/` is the server around it: axum routes and middleware, the shared
  locks and broadcast channels, HTTP calls to Steam, running `yt-dlp`, and JSON.
- `tests/` exercises the library on concrete values.
