//! Errors returned by the media service.

use crate::common::CoreError;
use vstd::prelude::*;

verus! {

/// Everything that can go wrong in the media service.
///
/// Every [`v1::MediaApi`](crate::media::v1::MediaApi) method returns
/// `Result<_, ServiceError>` — the service never panics on bad input.
#[derive(Debug, PartialEq, Eq)]
pub enum ServiceError {
    /// A playback action was requested but the playlist has no tracks.
    EmptyPlaylist,
    /// A track index was requested that does not exist.
    TrackOutOfRange {
        /// The requested index.
        index: usize,
        /// The number of tracks actually loaded.
        len: usize,
    },
    /// A failure in shared infrastructure (bus transport, serialization).
    Core(CoreError),
}

impl From<CoreError> for ServiceError {
    fn from(e: CoreError) -> (r: Self) {
        ServiceError::Core(e)
    }
}

impl vstd::std_specs::convert::FromSpecImpl<CoreError> for ServiceError {
    open spec fn obeys_from_spec() -> bool {
        true
    }

    open spec fn from_spec(e: CoreError) -> ServiceError {
        ServiceError::Core(e)
    }
}

} // verus!
