//! The concrete media service: state plus the [`MediaApi`] implementation.

use crate::media::api::v1::MediaApi;
use crate::media::error::ServiceError;
use crate::media::types::{PlaybackState, Track};
use vstd::prelude::*;

verus! {

/// The abstract state of the media service.
pub struct MediaModel {
    /// The loaded tracks, in order.
    pub playlist: Seq<Track>,
    /// Index of the selected track (0 when the playlist is empty).
    pub index: nat,
    /// Whether audio is playing.
    pub playing: bool,
}

impl MediaModel {
    /// The state every service keeps: the index selects a track of a
    /// non-empty playlist (or is 0 for an empty one), and nothing plays
    /// without tracks.
    pub open spec fn wf(self) -> bool {
        &&& self.playlist.len() == 0 ==> self.index == 0
        &&& self.playlist.len() > 0 ==> self.index < self.playlist.len()
        &&& self.playing ==> self.playlist.len() > 0
    }

    /// The selected track, if the playlist has one at the index.
    pub open spec fn current(self) -> Option<Track> {
        if self.index < self.playlist.len() {
            Some(self.playlist[self.index as int])
        } else {
            None
        }
    }

    /// The playback snapshot of this state.
    pub open spec fn snapshot(self) -> PlaybackState {
        PlaybackState { playing: self.playing, current: self.current() }
    }

    /// The state with `playing` set as given.
    pub open spec fn with_playing(self, playing: bool) -> MediaModel {
        MediaModel { playlist: self.playlist, index: self.index, playing }
    }

    /// The state with the index set as given.
    pub open spec fn with_index(self, index: nat) -> MediaModel {
        MediaModel { playlist: self.playlist, index, playing: self.playing }
    }

    /// `play`: fails on an empty playlist, else starts playing.
    pub open spec fn play(self) -> (MediaModel, Result<PlaybackState, ServiceError>) {
        if self.playlist.len() == 0 {
            (self, Err(ServiceError::EmptyPlaylist))
        } else {
            (self.with_playing(true), Ok(self.with_playing(true).snapshot()))
        }
    }

    /// `pause`: always succeeds and stops playing.
    pub open spec fn pause(self) -> (MediaModel, Result<PlaybackState, ServiceError>) {
        (self.with_playing(false), Ok(self.with_playing(false).snapshot()))
    }

    /// `next_track`: fails on an empty playlist, else selects the following
    /// track, wrapping from the last to the first.
    pub open spec fn next_track(self) -> (MediaModel, Result<PlaybackState, ServiceError>) {
        let len = self.playlist.len();
        if len == 0 {
            (self, Err(ServiceError::EmptyPlaylist))
        } else {
            let m = self.with_index((self.index + 1) % len);
            (m, Ok(m.snapshot()))
        }
    }

    /// `select_track`: fails unless `index` is a track, else selects it.
    pub open spec fn select_track(self, index: usize) -> (MediaModel, Result<
        PlaybackState,
        ServiceError,
    >) {
        if index >= self.playlist.len() {
            (self, Err(ServiceError::TrackOutOfRange { index, len: self.playlist.len() as usize }))
        } else {
            (self.with_index(index as nat), Ok(self.with_index(index as nat).snapshot()))
        }
    }
}

/// The media playback service.
///
/// Holds a playlist and playback flags, exposing them through the
/// [`v1::MediaApi`](crate::media::v1::MediaApi) trait.
#[derive(Debug)]
pub struct MediaService {
    playlist: Vec<Track>,
    /// Index of the currently selected track. Only meaningful when the
    /// playlist is non-empty.
    index: usize,
    playing: bool,
}

impl MediaService {
    #[verifier::type_invariant]
    spec fn inv(self) -> bool {
        self.model_of().wf()
    }

    spec fn model_of(self) -> MediaModel {
        MediaModel { playlist: self.playlist@, index: self.index as nat, playing: self.playing }
    }

    /// Create a service with the given playlist. Playback starts paused on
    /// the first track (or on nothing, if the playlist is empty).
    pub fn new(playlist: Vec<Track>) -> (r: Self)
        ensures
            r.model() == (MediaModel { playlist: playlist@, index: 0, playing: false }),
            r.model().wf(),
    {
        MediaService { playlist, index: 0, playing: false }
    }

    /// Create a service pre-loaded with a few demo tracks, so the running
    /// system has something to play out of the box.
    pub fn with_demo_tracks() -> (r: Self)
        ensures
            r.model().playlist.len() == 3,
            r.model().playlist[0].title@ == "Highway Star"@,
            r.model().playlist[0].artist@ == "Deep Purple"@,
            r.model().playlist[1].title@ == "Radar Love"@,
            r.model().playlist[1].artist@ == "Golden Earring"@,
            r.model().playlist[2].title@ == "Life Is a Highway"@,
            r.model().playlist[2].artist@ == "Tom Cochrane"@,
            r.model().index == 0,
            !r.model().playing,
            r.model().wf(),
    {
        let mut tracks: Vec<Track> = Vec::new();
        tracks.push(Track::new("Highway Star", "Deep Purple"));
        tracks.push(Track::new("Radar Love", "Golden Earring"));
        tracks.push(Track::new("Life Is a Highway", "Tom Cochrane"));
        MediaService::new(tracks)
    }

    /// Build a [`PlaybackState`] snapshot from the current state.
    fn snapshot(&self) -> (r: PlaybackState)
        ensures
            r == self.model().snapshot(),
    {
        let current = if self.index < self.playlist.len() {
            Some(self.playlist[self.index].clone())
        } else {
            None
        };
        PlaybackState { playing: self.playing, current }
    }
}

impl MediaApi for MediaService {
    closed spec fn model(&self) -> MediaModel {
        self.model_of()
    }

    fn play(&mut self) -> (r: Result<PlaybackState, ServiceError>) {
        proof {
            use_type_invariant(&*self);
        }
        if self.playlist.len() == 0 {
            return Err(ServiceError::EmptyPlaylist);
        }
        self.playing = true;
        Ok(self.snapshot())
    }

    fn pause(&mut self) -> (r: Result<PlaybackState, ServiceError>) {
        proof {
            use_type_invariant(&*self);
        }
        // Pausing is always valid, even with an empty playlist.
        self.playing = false;
        Ok(self.snapshot())
    }

    fn next_track(&mut self) -> (r: Result<PlaybackState, ServiceError>) {
        proof {
            use_type_invariant(&*self);
        }
        let len = self.playlist.len();
        if len == 0 {
            return Err(ServiceError::EmptyPlaylist);
        }
        self.index = (self.index + 1) % len;
        Ok(self.snapshot())
    }

    fn select_track(&mut self, index: usize) -> (r: Result<PlaybackState, ServiceError>) {
        proof {
            use_type_invariant(&*self);
        }
        let len = self.playlist.len();
        if index >= len {
            return Err(ServiceError::TrackOutOfRange { index, len });
        }
        self.index = index;
        Ok(self.snapshot())
    }

    fn now_playing(&self) -> (r: Result<PlaybackState, ServiceError>) {
        Ok(self.snapshot())
    }
}

// ----- Laws -----

/// Every operation keeps the state well formed and never changes the
/// playlist; `play` and `pause` never move the selection, and `next_track`
/// and `select_track` never change whether audio plays.
pub proof fn operations_preserve_wf(m: MediaModel, index: usize)
    requires
        m.wf(),
    ensures
        m.play().0.wf() && m.play().0.playlist == m.playlist && m.play().0.index == m.index,
        m.pause().0.wf() && m.pause().0.playlist == m.playlist && m.pause().0.index == m.index,
        m.next_track().0.wf() && m.next_track().0.playlist == m.playlist && m.next_track().0.playing
            == m.playing,
        m.select_track(index).0.wf() && m.select_track(index).0.playlist == m.playlist
            && m.select_track(index).0.playing == m.playing,
{
}

/// A call that fails leaves the state exactly as it was.
pub proof fn failed_calls_change_nothing(m: MediaModel, index: usize)
    ensures
        m.play().1 is Err ==> m.play().0 == m,
        m.next_track().1 is Err ==> m.next_track().0 == m,
        m.select_track(index).1 is Err ==> m.select_track(index).0 == m,
        m.pause().1 is Ok,
{
}

/// Every successful call returns the snapshot of the state it leaves.
pub proof fn results_report_the_new_state(m: MediaModel, index: usize)
    ensures
        m.play().1 is Ok ==> m.play().1 == Ok::<PlaybackState, ServiceError>(m.play().0.snapshot()),
        m.pause().1 == Ok::<PlaybackState, ServiceError>(m.pause().0.snapshot()),
        m.next_track().1 is Ok ==> m.next_track().1 == Ok::<PlaybackState, ServiceError>(
            m.next_track().0.snapshot(),
        ),
        m.select_track(index).1 is Ok ==> m.select_track(index).1 == Ok::<
            PlaybackState,
            ServiceError,
        >(m.select_track(index).0.snapshot()),
{
}

/// Pausing twice is the same as pausing once, and a pause after a play stops
/// playback.
pub proof fn pause_is_idempotent(m: MediaModel)
    ensures
        m.pause().0.pause() == m.pause(),
        !m.play().0.pause().0.playing,
{
}

/// After selecting a valid index, the current track is the one at that index.
pub proof fn select_then_current(m: MediaModel, index: usize)
    requires
        index < m.playlist.len(),
    ensures
        m.select_track(index).0.current() == Some(m.playlist[index as int]),
{
}

/// `k` consecutive `next_track` calls.
pub open spec fn next_n(m: MediaModel, k: nat) -> MediaModel
    decreases k,
{
    if k == 0 {
        m
    } else {
        next_n(m.next_track().0, (k - 1) as nat)
    }
}

/// `k` consecutive `next_track` calls advance the selection by `k`, modulo
/// the playlist length.
pub proof fn next_n_advances(m: MediaModel, k: nat)
    requires
        m.wf(),
        m.playlist.len() > 0,
    ensures
        next_n(m, k).index as int == (m.index as int + k as int) % (m.playlist.len() as int),
        next_n(m, k).playlist == m.playlist,
        next_n(m, k).playing == m.playing,
    decreases k,
{
    let len = m.playlist.len() as int;
    let i = m.index as int;
    if k == 0 {
        vstd::arithmetic::div_mod::lemma_small_mod(m.index, m.playlist.len());
    } else {
        let m1 = m.next_track().0;
        next_n_advances(m1, (k - 1) as nat);
        let j = k as int - 1;
        assert(m1.index as int == (i + 1) % len);
        assert(((i + 1) % len + j) % len == (i + 1 + j) % len) by {
            vstd::arithmetic::div_mod::lemma_add_mod_noop(i + 1, j, len);
            vstd::arithmetic::div_mod::lemma_add_mod_noop((i + 1) % len, j, len);
            vstd::arithmetic::div_mod::lemma_mod_twice(i + 1, len);
        }
    }
}

/// Skipping through the whole playlist comes back to the same track: the
/// wrap-around of `next_track`.
pub proof fn next_track_cycles(m: MediaModel)
    requires
        m.wf(),
        m.playlist.len() > 0,
    ensures
        next_n(m, m.playlist.len()) == m,
{
    let len = m.playlist.len() as int;
    let i = m.index as int;
    next_n_advances(m, m.playlist.len());
    assert((i + len) % len == i) by {
        vstd::arithmetic::div_mod::lemma_add_mod_noop(i, len, len);
        vstd::arithmetic::div_mod::lemma_mod_self_0(len);
        vstd::arithmetic::div_mod::lemma_small_mod(m.index, m.playlist.len());
    }
}

} // verus!
