# moltis_node

A headless node for a Moltis gateway, written in Verus.

- `src/` is the verified library: the JSON model (`json`), text helpers
  (`text`), the trusted calls into `uuid`, `url` and std's UTF-8 decoding
  (`support`), the node configuration and handshake (`runner`), the session
  state machine that drives a node's connection (`session`), the frames the
  node sends (`frames`), the handling of invoke requests (`invoke`), the `moltis node` / `moltis nodes` command logic (`cli`), and
  the proved properties that span functions (`laws`).
- `app/` holds the program: argument parsing, the WebSocket connection,
  process execution, HTTP requests and the background service files. It hands the library plain values and
  performs what the library decides.
- `tests/` exercises the library on concrete values.
