//! Domain types for the media service.

use vstd::prelude::*;

verus! {

/// A single playable track.
#[derive(Debug, PartialEq, Eq)]
pub struct Track {
    /// Track title, e.g. `"Highway Star"`.
    pub title: String,
    /// Performing artist, e.g. `"Deep Purple"`.
    pub artist: String,
}

impl Clone for Track {
    fn clone(&self) -> (r: Self)
        ensures
            r == *self,
    {
        Track { title: self.title.clone(), artist: self.artist.clone() }
    }
}

impl Track {
    /// Convenience constructor.
    pub fn new(title: &str, artist: &str) -> (r: Self)
        ensures
            r.title@ == title@,
            r.artist@ == artist@,
    {
        Track { title: title.to_string(), artist: artist.to_string() }
    }
}

/// The title of an optional track.
pub open spec fn title_of(track: Option<Track>) -> Option<String> {
    match track {
        Some(t) => Some(t.title),
        None => None,
    }
}

/// A snapshot of the media service's playback state.
///
/// Returned by every [`v1::MediaApi`](crate::media::v1::MediaApi) method so
/// callers always see the resulting state, and mirrored onto the bus as a
/// `MediaState` event.
#[derive(Debug, PartialEq, Eq)]
pub struct PlaybackState {
    /// Whether audio is currently playing.
    pub playing: bool,
    /// The currently selected track, if the playlist is non-empty.
    pub current: Option<Track>,
}

impl Clone for PlaybackState {
    fn clone(&self) -> (r: Self)
        ensures
            r == *self,
    {
        let current = match &self.current {
            Some(t) => Some(t.clone()),
            None => None,
        };
        PlaybackState { playing: self.playing, current }
    }
}

impl PlaybackState {
    /// The title of the current track, if any — handy for the bus event.
    pub fn current_title(&self) -> (r: Option<String>)
        ensures
            r == title_of(self.current),
    {
        match &self.current {
            Some(t) => Some(t.title.clone()),
            None => None,
        }
    }
}

} // verus!
