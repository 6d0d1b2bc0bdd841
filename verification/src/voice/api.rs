//! The versioned public API of the voice service.

pub mod v1;
