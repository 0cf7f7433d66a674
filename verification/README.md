# api_client

A terminal REST client: collections of saved HTTP requests, an editor for
URL, query, headers and body, and a response viewer.

The library (`src/`) holds the client's logic, each function proved with
Verus against a model of the state:

- `state` — the model: `AppView` and every transition (`key_step`, the
  `finish_*` steps after database or HTTP work).
- `app`, `editor`, `keys`, `events` — the executable client state and its
  operations, each proved to follow the model.
- `laws` — properties of the client as a whole (the invariant every key
  keeps, moves that undo each other, dialogs that take every key, ...).
- `url`, `params`, `headers`, `methods`, `text`, `json`, `view` — URL
  splitting and assembly, query rules, the accepted headers and the
  `HeaderMap` they fill, the method table, string helpers,
  reading and writing the stored JSON columns, JSON pretty-printing, and
  the texts and areas the screen shows.

`app/` is the program around it: SQLite storage, HTTP through reqwest, the
terminal loop and drawing with ratatui. A key press goes to
`App::handle_key`, which returns the outside work to do; the program does
it and reports back through the matching `finish_*` method.
