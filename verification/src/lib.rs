//! The `dash` infotainment system: shared vocabulary, the message bus, the
//! navigation, media, voice and settings services, and the gateway protocol.
//!
//! Every service is pure domain logic behind a versioned API (`v1`); the bus
//! loops and the WebSocket plumbing that drive them live outside this library
//! and call the per-event decision functions of each service's `runner`.

pub mod bus;
pub mod common;
pub mod gateway;
pub mod media;
pub mod nav;
pub mod pipeline;
pub mod settings;
pub mod text;
pub mod voice;
