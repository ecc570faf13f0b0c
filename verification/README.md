# gertrud

The backend that game servers register with and keep a websocket open to. The library
under `src/` holds its decisions, each with a contract proved by Verus:

- `permissions`, `key_type`: what an API key grants, read from the values stored for it.
- `commands`: authorization of commands, the registration flow of a server
  (`commands::server_registrations`), settings answers, and the messages broadcast to
  connected servers.
- `standby`: requests waiting for the response with a given message id.
- `websocket`: the list of connected servers, admission of a websocket, the keepalive
  cycle, the routing of incoming frames and the forwarding of send requests.
- `drakentemmer`: the game panel's server details and the address a server is reached at.

`app/` is the server around it: HTTP routes, the websocket loops, Redis, MongoDB, the
panel's HTTP client, and the JSON forms of the library's types.
