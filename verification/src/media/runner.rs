//! Bus integration: what the media loop does with each event.
//!
//! For every [`MediaControl`](EventKind::MediaControl) command the loop runs
//! the action through the [`MediaApi`] and publishes the resulting
//! `MediaState`. Service errors (e.g. an empty playlist) are reported and
//! skipped; every other event is ignored.

use crate::bus::{bus_loop, loop_publishes_what_steps_publish};
use crate::common::event::owner;
use crate::common::{CoreError, Event, EventKind, MediaAction, ServiceId};
use crate::media::api::v1::MediaApi;
use crate::media::error::ServiceError;
use crate::media::service::{MediaModel, MediaService};
use crate::media::types::{title_of, PlaybackState};
use vstd::prelude::*;

verus! {

impl MediaModel {
    /// The transition a media action drives.
    pub open spec fn apply(self, action: MediaAction) -> (MediaModel, Result<
        PlaybackState,
        ServiceError,
    >) {
        match action {
            MediaAction::Play => self.play(),
            MediaAction::Pause => self.pause(),
            MediaAction::Next => self.next_track(),
        }
    }
}

/// The `MediaState` payload that announces a playback state.
pub open spec fn media_state_kind(state: PlaybackState) -> EventKind {
    EventKind::MediaState { playing: state.playing, track: title_of(state.current) }
}

/// What the media loop does with an event of payload `kind` in state `m`:
/// the next state, and `None` to ignore the event, `Some(Ok(k))` to publish
/// an event with payload `k`, or `Some(Err(e))` to report `e`. Only media
/// control commands drive the service; a failed command changes nothing
/// and publishes nothing.
pub open spec fn media_step(m: MediaModel, kind: EventKind) -> (MediaModel, Option<
    Result<EventKind, ServiceError>,
>) {
    match kind {
        EventKind::MediaControl { action } => (
            m.apply(action).0,
            Some(
                match m.apply(action).1 {
                    Ok(state) => Ok(media_state_kind(state)),
                    Err(e) => Err(e),
                },
            ),
        ),
        _ => (m, None),
    }
}

/// The payload of what a step decided to publish or report.
pub open spec fn announced(r: Option<Result<Event, ServiceError>>) -> Option<
    Result<EventKind, ServiceError>,
> {
    match r {
        Some(Ok(event)) => Some(Ok(event.kind)),
        Some(Err(e)) => Some(Err(e)),
        None => None,
    }
}

/// The state a media step leads to, and the payload it publishes, if any.
pub open spec fn media_publication(m: MediaModel, kind: EventKind) -> (MediaModel, Option<
    EventKind,
>) {
    (
        media_step(m, kind).0,
        match media_step(m, kind).1 {
            Some(Ok(k)) => Some(k),
            _ => None,
        },
    )
}

/// What the media loop does over a run of receives, starting in state `m`
/// (see [`bus_loop`]).
pub open spec fn media_loop(m: MediaModel, received: Seq<Result<Event, CoreError>>) -> (
    MediaModel,
    Seq<EventKind>,
    Option<Result<(), CoreError>>,
) {
    bus_loop(|t: MediaModel, k: EventKind| media_publication(t, k), m, received)
}

/// Decide what the media loop does with one bus event: `None` to ignore it,
/// `Some(Ok(event))` to publish `event`, `Some(Err(e))` to report `e`.
pub fn handle_event(service: &mut MediaService, kind: &EventKind) -> (r: Option<
    Result<Event, ServiceError>,
>)
    ensures
        r is Some <==> owner(*kind) == Some(ServiceId::Media),
        final(service).model() == media_step(old(service).model(), *kind).0,
        announced(r) == media_step(old(service).model(), *kind).1,
        r matches Some(Ok(event)) ==> event.source == ServiceId::Media,
{
    let action = match kind {
        EventKind::MediaControl { action } => *action,
        _ => return None,
    };
    let result = match action {
        MediaAction::Play => service.play(),
        MediaAction::Pause => service.pause(),
        MediaAction::Next => service.next_track(),
    };
    match result {
        Ok(state) => Some(
            Ok(
                Event::new(
                    ServiceId::Media,
                    EventKind::MediaState { playing: state.playing, track: state.current_title() },
                ),
            ),
        ),
        Err(e) => Some(Err(e)),
    }
}

// ----- Laws of a command -----

/// Each media command drives exactly the call its action names and
/// announces the state that call leaves, over the same playlist:
/// - `Play` starts playback on the selected track, or fails on an empty
///   playlist and changes nothing;
/// - `Pause` stops playback and keeps the selection;
/// - `Next` selects the following track (the first after the last) and
///   leaves playback as it was, or fails on an empty playlist and changes
///   nothing.
pub proof fn media_commands_do_what_they_name(m: MediaModel, action: MediaAction)
    requires
        m.wf(),
    ensures
        ({
            let next = media_step(m, EventKind::MediaControl { action });
            let len = m.playlist.len();
            &&& next.0.playlist == m.playlist
            &&& match action {
                MediaAction::Play => if len == 0 {
                    next.0 == m && next.1 == Some(
                        Err::<EventKind, ServiceError>(ServiceError::EmptyPlaylist),
                    )
                } else {
                    &&& next.0.playing
                    &&& next.0.index == m.index
                    &&& next.1 == Some(
                        Ok::<EventKind, ServiceError>(
                            EventKind::MediaState {
                                playing: true,
                                track: Some(m.playlist[m.index as int].title),
                            },
                        ),
                    )
                },
                MediaAction::Pause => {
                    &&& !next.0.playing
                    &&& next.0.index == m.index
                    &&& next.1 == Some(
                        Ok::<EventKind, ServiceError>(
                            EventKind::MediaState {
                                playing: false,
                                track: if len == 0 {
                                    None
                                } else {
                                    Some(m.playlist[m.index as int].title)
                                },
                            },
                        ),
                    )
                },
                MediaAction::Next => if len == 0 {
                    next.0 == m && next.1 == Some(
                        Err::<EventKind, ServiceError>(ServiceError::EmptyPlaylist),
                    )
                } else {
                    &&& next.0.playing == m.playing
                    &&& next.0.index == (m.index + 1) % len
                    &&& next.1 == Some(
                        Ok::<EventKind, ServiceError>(
                            EventKind::MediaState {
                                playing: m.playing,
                                track: Some(m.playlist[((m.index + 1) % len) as int].title),
                            },
                        ),
                    )
                },
            }
        }),
{
}

// ----- Laws of the loop -----

/// The media loop publishes nothing but media state.
pub proof fn media_loop_publishes_only_state(m: MediaModel, received: Seq<Result<Event, CoreError>>)
    ensures
        forall|i: int|
            0 <= i < media_loop(m, received).1.len() ==> (#[trigger] media_loop(
                m,
                received,
            ).1[i]) is MediaState,
{
    let step = |t: MediaModel, k: EventKind| media_publication(t, k);
    let good = |k: EventKind| k is MediaState;
    loop_publishes_what_steps_publish(step, good, m, received);
}

} // verus!
