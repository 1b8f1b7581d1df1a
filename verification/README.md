# dragonfly_server

The request handling of a machine-provisioning HTTP API, verified with Verus.

`src/` holds the decisions: for each endpoint, which calls to the machine
store and to the provisioning service are made in which order, and what is
answered for every outcome of those calls, down to the exact messages and
HTML fragments. `src/laws.rs` states properties that span endpoints.

`app/` holds the axum side: routing, request extraction, the store interface,
and the rendering of the library's answers as HTTP responses.
