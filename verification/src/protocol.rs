//! StellwerkSim's XML based protocol: its data types and its request texts.

pub mod event;
pub mod request;
pub mod status;
