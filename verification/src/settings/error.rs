//! Errors returned by the settings service.

use crate::common::CoreError;
use vstd::prelude::*;

verus! {

/// Failures from the settings service.
#[derive(Debug, PartialEq, Eq)]
pub enum ServiceError {
    /// The setting key is not one this service knows about.
    UnknownKey(String),
    /// The value is not valid for the given key.
    InvalidValue {
        /// The setting key.
        key: String,
        /// The rejected value.
        value: String,
    },
    /// A failure in shared infrastructure (bus transport, serialization).
    Core(CoreError),
}

impl From<CoreError> for ServiceError {
    fn from(e: CoreError) -> (r: Self) {
        ServiceError::Core(e)
    }
}

impl vstd::std_specs::convert::FromSpecImpl<CoreError> for ServiceError {
    open spec fn obeys_from_spec() -> bool {
        true
    }

    open spec fn from_spec(e: CoreError) -> ServiceError {
        ServiceError::Core(e)
    }
}

} // verus!
