# dispatch

The request-handling logic of the Dispatch inbox and chat server, verified
with Verus.

- `src/` is the library. Each endpoint and chat event is split into what it
  decides (verified functions and state machines with contracts) and the
  database, clock, hashing and network calls it makes. Calls into chrono,
  bcrypt, bson and serde_json stand behind small trusted wrappers whose
  contracts say what those crates do.
  - `chat_send`: sending a chat message over the socket or over HTTP, as a
    state machine that names each database call, with the laws that hold of
    every run.
  - `chat_events`: event parsing and dispatch, typing notices, read
    receipts, deletions, online status, and the socket session loop.
  - `chat_directory`: whom a user may chat with, and the conversation list.
  - `accounts`: sign-up, log-in, roles and the profile page.
  - `inbox`: e-mail flags, deletion, administrators' mailings, viewed e-mails.
  - `object_id`, `password`, `timefmt`, `text`, `reply`: building blocks.
- `app/` is the actix-web server: routes, MongoDB calls, sockets.
- `tests/` runs the library on concrete values.
