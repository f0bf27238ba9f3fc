# iterm2-client

A client library for the iTerm2 scripting API, verified with Verus.

- `src/` is the verified library: the protocol's message types (`proto`),
  a builder for every request (`request`), the reading of every reply the
  handles use (`reply`, `App::list_sessions_reply`, `App::create_tab_reply`),
  the window / tab / session handles and the flattening of a tab's split-pane
  tree into its sessions (`app`, `window`, `tab`, `session`), credential
  resolution (`auth`), the WebSocket handshake headers (`transport`), request
  numbering and reply routing (`connection`), what a notification subscriber
  does with each receive (`notification`), errors (`error`) and the text
  helpers they need (`text`).
- `app/` holds the I/O: the WebSocket transport, the connection task that
  sends requests and dispatches replies and notifications, `osascript` and the
  environment, the typed notification streams, and the asynchronous
  operations of the handles, each of which builds its request with `request`
  and reads the reply with `reply`.
- The protobuf wire encoding is not part of this crate. A `Connection` in
  `app/` is built with a `Codec` that the user supplies: it encodes a
  `proto::ClientOriginatedMessage` and decodes a
  `proto::ServerOriginatedMessage` in iTerm2's protobuf format, for instance
  through types generated from iTerm2's `api.proto` and converted field by
  field. Without one, no request can be sent.
- `tests/` exercises the library from outside.
