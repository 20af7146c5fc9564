//! Verified core of a client library for the StellwerkSim plugin interface.
//!
//! StellwerkSim talks to plugins over a line based XML protocol. This crate holds the
//! parts of a plugin client that decide things: the protocol's data types, the text of
//! every request, how response lines are assembled, how incoming lines are routed, the
//! connection handshake, the event subscriptions and the latency correction of the
//! simulator clock. Networking and XML deserialisation live around it.

pub mod error;
pub mod handshake;
pub mod protocol;
pub mod response;
pub mod standby;
pub mod text;
pub mod time;
