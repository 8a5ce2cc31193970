# openless_remote

Dictation through a phone: a desktop client asks a phone on the same network to record, the phone
turns the recording into text, and the desktop inserts the text at the cursor. This crate is the
logic of both sides, written in Verus and proved.

- `src/` is the library. It decides and never waits: sockets, clocks, threads and the input method
  are left to its callers, who report what happened and carry out what the library answers.
  - `text`, `json`, `ident`, `timer`: texts, JSON through `serde_json`, identifiers through `uuid`,
    periods.
  - `protocol`: the messages, how they are written and how they are read.
  - `registry`, `server`, `server_laws`: the phone's sessions, its answers to commands, and what
    holds of them: one session at a time, heartbeats, results that are acknowledged.
  - `lan_server`, `keepalive`, `backend`: the life of the phone's listener.
  - `client`, `handshake`, `session`, `hint`, `scanner`: the desktop's keys, connections, sessions,
    hints and its search for a phone.
  - `conversation_laws`: what holds of the two sides together.
- `app/` is the program around it: the desktop client on fcitx5, and the phone's listener on tokio.
- `tests/` runs the library on concrete values.

Times are nanoseconds of a clock that never goes back; the caller reads it.
