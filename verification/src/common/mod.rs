//! Foundational types shared across the whole system: the event vocabulary,
//! service identifiers and the shared infrastructure error.

pub mod error;
pub mod event;
pub mod ids;

pub use error::CoreError;
pub use event::{Event, EventKind, MediaAction};
pub use ids::ServiceId;
