//! The versioned public API of the media service.
//!
//! Nesting the trait in a `v1` module means a `v2` trait can be introduced
//! later while the `v1` implementation keeps working for existing callers.

pub mod v1;
