# greengrass_ipc

A client for the AWS IoT Greengrass v2 component IPC service (EventStream RPC over a Unix
domain socket), with its protocol logic verified by Verus.

- `src/` is the verified library: message types and flags, building and parsing EventStream RPC
  messages (`eventstream`), the frame codec boundary (`eventstream::wire`, `eventstream::codec`),
  the `Connect` handshake, stream-id allocation and the routing of incoming messages
  (`connection`), the `Connect` payload (`json`), the connection
  parameters (`env`), and the operation shapes with their base64 and QoS wire forms (`model`).
- `app/` drives the socket, the background read task and the typed async `Client` and
  `EventStream`, and gives the shapes (the service-error payload among them) their JSON
  encoding.
- `tests/` exercises the library on concrete messages and scenarios.
