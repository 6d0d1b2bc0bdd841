//! The media playback service: a playlist, the selected track, and whether
//! audio is playing.
//!
//! - [`error`] — the service's own [`ServiceError`] enum.
//! - [`types`] — domain types ([`Track`], [`PlaybackState`]).
//! - [`v1`] — the versioned [`v1::MediaApi`] trait: the public contract.
//! - [`service`] — the concrete implementation.
//! - [`runner`] — what the bus loop does with each event.

pub mod api;
pub mod error;
pub mod runner;
pub mod service;
pub mod types;

pub use api::v1;
pub use error::ServiceError;
pub use runner::handle_event;
pub use service::{MediaModel, MediaService};
pub use types::{PlaybackState, Track};
