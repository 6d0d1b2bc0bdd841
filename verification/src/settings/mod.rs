//! The settings service: a small validated key/value store (volume, theme,
//! units). Announces changes as `SettingsState` on the bus.

pub mod api;
pub mod error;
pub mod runner;
pub mod service;
pub mod snapshot;
pub mod types;

pub use api::v1;
pub use error::ServiceError;
pub use runner::handle_event;
pub use service::SettingsService;
pub use snapshot::SettingsSnapshot;
pub use types::{defaults, validate};
