//! Version 1 of the media service API.

use crate::media::error::ServiceError;
use crate::media::service::MediaModel;
use crate::media::types::PlaybackState;
use vstd::prelude::*;

verus! {

/// The media playback contract.
///
/// Every successful call returns the resulting [`PlaybackState`], so callers
/// never need a separate read after an action. Each method is stated against
/// the abstract [`MediaModel`] of the service: the call moves the model as the
/// model's transition of the same name says, and returns what it says.
pub trait MediaApi {
    /// The abstract state of the service.
    spec fn model(&self) -> MediaModel;

    /// Start (or resume) playback of the current track.
    ///
    /// # Errors
    /// [`ServiceError::EmptyPlaylist`] if no tracks are loaded.
    fn play(&mut self) -> (r: Result<PlaybackState, ServiceError>)
        ensures
            (final(self).model(), r) == old(self).model().play(),
    ;

    /// Pause playback. Pausing an already-paused player is a no-op and
    /// succeeds.
    fn pause(&mut self) -> (r: Result<PlaybackState, ServiceError>)
        ensures
            (final(self).model(), r) == old(self).model().pause(),
    ;

    /// Advance to the next track, wrapping around to the first after the
    /// last. Does not change whether audio is playing.
    ///
    /// # Errors
    /// [`ServiceError::EmptyPlaylist`] if no tracks are loaded.
    fn next_track(&mut self) -> (r: Result<PlaybackState, ServiceError>)
        ensures
            (final(self).model(), r) == old(self).model().next_track(),
    ;

    /// Select the track at `index` (0-based) without changing play/pause.
    ///
    /// # Errors
    /// [`ServiceError::TrackOutOfRange`] if `index` is not a valid track.
    fn select_track(&mut self, index: usize) -> (r: Result<PlaybackState, ServiceError>)
        ensures
            (final(self).model(), r) == old(self).model().select_track(index),
    ;

    /// Read the current playback state without changing anything.
    fn now_playing(&self) -> (r: Result<PlaybackState, ServiceError>)
        ensures
            r == Ok::<PlaybackState, ServiceError>(self.model().snapshot()),
    ;
}

} // verus!
