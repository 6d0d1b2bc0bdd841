//! The bridge between the bus and WebSocket clients (the frontend).
//!
//! Each connection runs two halves: outbound, forwarding every bus event to
//! the client as a flattened [`ServerEvent`], and inbound, publishing each
//! client [`ClientCommand`] onto the bus. The sockets and JSON live outside
//! this library; [`bridge`] holds what each half decides per message.

pub mod bridge;
pub mod protocol;

pub use bridge::{inbound_step, outbound_step, ClientFrame, Inbound, Outbound};
pub use protocol::{ClientCommand, ServerEvent};
