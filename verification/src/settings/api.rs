//! The versioned public API of the settings service.

pub mod v1;
