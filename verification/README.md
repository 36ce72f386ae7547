# wrpc_transport_do

A wRPC transport for Cloudflare Durable Objects: requests and responses travel
as JSON envelopes over HTTP fetches or WebSockets between Durable Objects.

- `src/` is the library, written in Verus: the message model, the rules that
  recognise and parse wRPC requests over HTTP, the router, the client's call
  steps, the WebSocket event handling, a JSON document held as plain values with the
  reads made of it, and the decisions of the example counter and
  orchestrator objects. Every function carries a contract, and
  `src/laws.rs` proves the properties that tie them together.
- `app/` is the runtime side: JSON encoding with serde, the fetch and
  WebSocket I/O through the `worker` crate, and the example Worker.
- `tests/` exercises the library on concrete values.
