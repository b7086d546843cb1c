# QSONaut HostBridge

HostBridge lets a small always-on computer act as an authenticated radio and
audio endpoint for QSONaut clients. This crate holds the parts that decide
things, proved with Verus, and a thin program around them.

- `src/` is the library. `radio` keeps the catalog and the exclusive
  reservations, `session` is the machine that answers one client, `safety`
  states what holds of every session and of all sessions together, `media`
  frames PCM, `alsa` names and opens sound cards, `protocol` and `bridge` hold
  the messages and the host, `config` and `service` the stored configuration
  and the background service, `text` the text handling they share.
- `app/` is the program: command line, files, processes, WebSocket connections
  and the radio drivers. It performs what a session orders and reports what
  happened.
- `tests/` run the library on concrete values.

Building the program needs the udev library of the system, which the serial
port support of `rigwright` links to.
