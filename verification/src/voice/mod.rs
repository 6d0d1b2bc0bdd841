//! The voice service: the system's natural-language front door.
//!
//! It is stateless. Its whole job is to turn a raw transcript into a
//! structured [`Intent`] ([`v1::VoiceApi::parse`]) and, on the bus, to
//! republish that intent as the command event the owning service consumes.

pub mod api;
pub mod error;
pub mod intent;
pub mod runner;
pub mod service;

pub use api::v1;
pub use error::ServiceError;
pub use intent::{Intent, IntentView};
pub use runner::handle_event;
pub use service::{parse_intent, VoiceService};
