//! Errors returned by the navigation service.

use crate::common::CoreError;
use vstd::prelude::*;

verus! {

/// Failures from the navigation service.
#[derive(Debug, PartialEq, Eq)]
pub enum ServiceError {
    /// A destination was requested but the text was empty/blank.
    EmptyDestination,
    /// A failure in shared infrastructure (bus transport, serialization).
    Core(CoreError),
}

impl From<CoreError> for ServiceError {
    fn from(e: CoreError) -> (r: Self) {
        ServiceError::Core(e)
    }
}

impl vstd::std_specs::convert::FromSpecImpl<CoreError> for ServiceError {
    open spec fn obeys_from_spec() -> bool {
        true
    }

    open spec fn from_spec(e: CoreError) -> ServiceError {
        ServiceError::Core(e)
    }
}

} // verus!
