# canela_server

A small chat server whose decisions are verified with Verus.

- `src/` is the verified library:
  - `table.rs`: a map keyed by text, kept as a vector of distinct keys, with its
    view as a `Map` and the lemmas that relate the two.
  - `messages.rs`: the messages clients send and the processed form the server
    hands on (sender and arrival time stamped).
  - `delivery.rs`: the users that are online with their inboxes, and the routing of
    a message to an inbox or back to the caller for storage.
  - `feedback.rs`: the state shared by the reading and writing sides of a
    websocket, their step functions, and the JSON error reports.
  - `json.rs`: how serde_json writes a JSON string literal, how such a literal
    reads back, and the proof that the two agree.
  - `session.rs`: session tokens (HS256 JWTs) and the table of issued sessions.
  - `access.rs`: admission of clients (password, registration, login).
  - `decimal.rs`: decimal text of user ids.
  - `laws.rs`: properties that span several operations.
- `app/` is the program around it: the HTTP and websocket routes (warp, tokio),
  the SQLite storage (rusqlite), JSON parsing of client messages (serde) and the
  command line (clap).
- `tests/` runs the library on concrete values.
