//! The navigation service. Owns the active destination and announces changes
//! as `NavState` on the bus.

pub mod api;
pub mod error;
pub mod runner;
pub mod service;
pub mod types;

pub use api::v1;
pub use error::ServiceError;
pub use runner::handle_event;
pub use service::NavService;
pub use types::NavStatus;
