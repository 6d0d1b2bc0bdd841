//! The [`Event`] envelope and its [`EventKind`] payload.
//!
//! An [`Event`] is the single unit that travels across the message bus. It
//! pairs a small amount of metadata (who sent it, when, and a unique id) with a
//! payload ([`EventKind`]).
//!
//! Payloads fall into two groups: **commands**, a request for one owning
//! service to act, and **state updates**, a fact a service announces after
//! acting.

use crate::common::ids::ServiceId;
use std::time::{Duration, SystemTime, UNIX_EPOCH};
use uuid::Uuid;
use vstd::prelude::*;

verus! {

#[verifier::external_type_specification]
#[verifier::external_body]
pub struct ExUuid(Uuid);

#[verifier::external_type_specification]
#[verifier::external_body]
pub struct ExSystemTime(SystemTime);

/// `uuid::Uuid` derives `Clone` together with `Copy`, so a clone is the same
/// value.
pub assume_specification[ <Uuid as Clone>::clone ](u: &Uuid) -> (r: Uuid)
    ensures
        r == *u,
;

/// A message travelling across the bus: metadata plus a typed [`EventKind`].
#[derive(Debug, Clone, PartialEq)]
pub struct Event {
    /// Unique id for this event, useful for tracing and de-duplication.
    pub id: Uuid,
    /// The service that produced the event.
    pub source: ServiceId,
    /// Milliseconds since the Unix epoch, captured when the event was created.
    pub ts_millis: u128,
    /// The typed payload.
    pub kind: EventKind,
}

/// A media transport action, carried by [`EventKind::MediaControl`].
#[derive(Debug, Clone, Copy, PartialEq, Eq, Structural)]
pub enum MediaAction {
    /// Start or resume playback.
    Play,
    /// Pause playback.
    Pause,
    /// Skip to the next track.
    Next,
}

/// The payload of an [`Event`].
///
/// Commands are consumed by exactly one owning service: `VoiceCommand` by
/// voice, `MediaControl` by media, `SetDestination` by nav and `SetSetting` by
/// settings. State updates (`MediaState`, `NavState`, `SettingsState`) are
/// announced by a service after it acted; the gateway relays them to the UI.
#[derive(Debug, Clone, PartialEq)]
pub enum EventKind {
    /// A raw voice utterance for the voice service to interpret.
    VoiceCommand {
        /// The raw recognized text.
        transcript: String,
    },
    /// A structured request to control media playback. Consumed by media.
    MediaControl {
        /// What to do.
        action: MediaAction,
    },
    /// A request to set the navigation destination. Consumed by nav.
    SetDestination {
        /// Human-readable destination.
        destination: String,
    },
    /// A request to change a user setting. Consumed by settings.
    SetSetting {
        /// Setting key, e.g. `"volume"` or `"theme"`.
        key: String,
        /// New value, as a string.
        value: String,
    },
    /// Media playback state changed. Produced by the media service.
    MediaState {
        /// Whether audio is currently playing.
        playing: bool,
        /// The current track title, if any.
        track: Option<String>,
    },
    /// Navigation state changed. Produced by the nav service.
    NavState {
        /// The active destination, or `None` if navigation is idle.
        destination: Option<String>,
    },
    /// A user setting's value changed. Produced by the settings service.
    SettingsState {
        /// Setting key.
        key: String,
        /// New value.
        value: String,
    },
}

impl EventKind {
    /// Commands are requests for a service to act.
    pub open spec fn is_command(self) -> bool {
        ||| self is VoiceCommand
        ||| self is MediaControl
        ||| self is SetDestination
        ||| self is SetSetting
    }

    /// State updates are facts a service announces after acting.
    pub open spec fn is_state(self) -> bool {
        ||| self is MediaState
        ||| self is NavState
        ||| self is SettingsState
    }
}

/// The service that consumes a payload: each command has exactly one owning
/// service, and state updates are consumed by none (the gateway relays them).
pub open spec fn owner(kind: EventKind) -> Option<ServiceId> {
    match kind {
        EventKind::VoiceCommand { .. } => Some(ServiceId::Voice),
        EventKind::MediaControl { .. } => Some(ServiceId::Media),
        EventKind::SetDestination { .. } => Some(ServiceId::Nav),
        EventKind::SetSetting { .. } => Some(ServiceId::Settings),
        _ => None,
    }
}

/// Commands, and only commands, have an owning service.
pub proof fn commands_have_one_owner(kind: EventKind)
    ensures
        kind.is_command() <==> owner(kind) is Some,
        owner(kind) != Some(ServiceId::Gateway),
{
}

/// Every payload is either a command or a state update, never both.
pub proof fn commands_and_state_partition_payloads(kind: EventKind)
    ensures
        kind.is_command() != kind.is_state(),
{
}

impl Event {
    /// Create a new event from `source` carrying `kind`, stamping it with a
    /// fresh id and the current time.
    pub fn new(source: ServiceId, kind: EventKind) -> (r: Event)
        ensures
            r.source == source,
            r.kind == kind,
    {
        Event { id: fresh_uuid(), source, ts_millis: now_millis(), kind }
    }
}

/// Current time in milliseconds since the Unix epoch.
///
/// If the system clock is before the epoch this saturates to `0` rather than
/// panicking.
fn now_millis() -> u128 {
    let now = system_time_now();
    match duration_since_unix_epoch(&now) {
        Some(elapsed) => duration_as_millis(&elapsed),
        None => 0,
    }
}

/// Calls `uuid::Uuid::new_v4`, a random version-4 UUID. Nothing is stated of
/// the result: it comes from the operating system's random number generator
/// (which panics if that generator is unavailable).
#[verifier::external_body]
fn fresh_uuid() -> Uuid {
    Uuid::new_v4()
}

/// Calls `std::time::SystemTime::now`. Nothing is stated of the result: it is
/// the wall clock.
#[verifier::external_body]
fn system_time_now() -> SystemTime {
    SystemTime::now()
}

/// Calls `std::time::SystemTime::duration_since` with `UNIX_EPOCH`, turning its
/// error (a clock before the epoch) into `None`. Nothing is stated of the
/// result: the time type is opaque here.
#[verifier::external_body]
fn duration_since_unix_epoch(t: &SystemTime) -> Option<Duration> {
    t.duration_since(UNIX_EPOCH).ok()
}

/// Calls `std::time::Duration::as_millis`. Nothing is stated of the result: the
/// duration type is opaque here.
#[verifier::external_body]
fn duration_as_millis(d: &Duration) -> u128 {
    d.as_millis()
}

} // verus!
