//! The versioned public API of the navigation service.

pub mod v1;
