# ftcp_server

A file-transfer server over TCP (FTCP), verified with Verus.

- `src/ftcp.rs`: the protocol's commands and their four-byte wire form, the frame.
- `src/wire.rs`: the big-endian length fields of requests and replies.
- `src/client.rs`, `src/server_details.rs`, `src/server.rs`: clients, the server's
  state, client ids, and the server's commands with their log lines.
- `src/server_implementation.rs`: the decisions of the per-client tasks, as step
  functions: the request reader, the writer, and the reply to a list request.
- `src/externs.rs`: the outside types and calls (tokio, tokio-util, rand, and
  `String::from_utf8_lossy`) with the contracts the verified code relies on.
- `app/lib.rs`: the asynchronous tasks that do the socket, channel and file I/O and
  follow the library's decisions.
