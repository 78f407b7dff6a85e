# rdev_poc

A keyboard bridge between the local machine and websocket clients, with its logic
verified by Verus.

- `src/keyboard.rs`: the keys, the paste shortcut of each platform, and the default
  map from characters to the key (and Shift state) that types them.
- `src/typing.rs`: the actions of the bridge, and the plan that types a text one
  character at a time.
- `src/json.rs`: reading one field of a JSON object, JSON string escaping, decimal
  numerals.
- `src/hub.rs`: the registry of clients, authentication, reading the "type" and
  "data" fields of a client message, the answer to each message, and who receives
  key reports.
- `src/report.rs`: the stamped record and JSON report of a local key event.
- `src/server.rs`: the greeting command, the websocket greeting server's answers and
  sessions, and the echo server's reply.
- `app/`: the program around the library: the websocket event loop, the key
  listener, clipboard, input simulation and the servers.
