# stellwerksim

A client library for StellwerkSim plugins, split into a verified core and a thin
asynchronous shell.

- `src/` is the core, verified with Verus:
  - `protocol/`: the event types and events, the status reply, and the text of every
    request together with the line that ends its response;
  - `text.rs`: Unicode white space and trimming of protocol lines;
  - `response.rs`: routing of incoming lines (events or response lines) and the
    assembly of the lines of one response;
  - `handshake.rs`: the greeting / registration handshake as a state machine;
  - `standby.rs`: the event subscriptions, kept in a `dashmap::DashMap` of tokio senders;
  - `time.rs`: the latency correction of the simulator clock, computed with `chrono`.
- `app/` is the shell: the TCP connection, the reading task, XML deserialisation with
  `serde_xml_rs`, the error type with `thiserror`, and the `Plugin` / `PluginBuilder` API.
- `tests/` exercises the core on concrete values.
