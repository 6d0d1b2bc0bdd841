//! The [`Intent`] type: a structured interpretation of a voice transcript.

use crate::common::{Event, EventKind, MediaAction, ServiceId};
use vstd::prelude::*;

verus! {

/// A recognized user intent, produced by parsing a transcript.
///
/// Each intent corresponds to exactly one command [`EventKind`] that the voice
/// service publishes for the owning service to consume.
#[derive(Debug, Clone, PartialEq, Eq)]
pub enum Intent {
    /// Control media playback.
    Media(MediaAction),
    /// Navigate to a destination.
    Navigate {
        /// Where to go.
        destination: String,
    },
    /// Change a setting.
    Setting {
        /// Setting key, e.g. `"volume"`.
        key: String,
        /// New value.
        value: String,
    },
}

/// The meaning of an [`Intent`], with its texts as character sequences.
pub enum IntentView {
    /// Control media playback.
    Media(MediaAction),
    /// Navigate to the destination.
    Navigate(Seq<char>),
    /// Set the key to the value.
    Setting(Seq<char>, Seq<char>),
}

impl View for Intent {
    type V = IntentView;

    open spec fn view(&self) -> IntentView {
        match self {
            Intent::Media(action) => IntentView::Media(*action),
            Intent::Navigate { destination } => IntentView::Navigate(destination@),
            Intent::Setting { key, value } => IntentView::Setting(key@, value@),
        }
    }
}

/// The intent a command payload carries, if it is one of the commands that
/// voice can produce.
pub open spec fn command_view(kind: EventKind) -> Option<IntentView> {
    match kind {
        EventKind::MediaControl { action } => Some(IntentView::Media(action)),
        EventKind::SetDestination { destination } => Some(IntentView::Navigate(destination@)),
        EventKind::SetSetting { key, value } => Some(IntentView::Setting(key@, value@)),
        _ => None,
    }
}

impl Intent {
    /// The command payload that carries this intent to its owning service.
    pub open spec fn command_kind(self) -> EventKind {
        match self {
            Intent::Media(action) => EventKind::MediaControl { action },
            Intent::Navigate { destination } => EventKind::SetDestination { destination },
            Intent::Setting { key, value } => EventKind::SetSetting { key, value },
        }
    }

    /// Convert this intent into the bus command [`Event`] the voice service
    /// publishes (sourced from [`ServiceId::Voice`]).
    pub fn into_event(self) -> (r: Event)
        ensures
            r.source == ServiceId::Voice,
            r.kind == self.command_kind(),
            command_view(r.kind) == Some(self@),
    {
        let kind = match self {
            Intent::Media(action) => EventKind::MediaControl { action },
            Intent::Navigate { destination } => EventKind::SetDestination { destination },
            Intent::Setting { key, value } => EventKind::SetSetting { key, value },
        };
        Event::new(ServiceId::Voice, kind)
    }
}

/// Every intent becomes a command for media, nav or settings — never a voice
/// command, so voice never feeds its own output back to itself — and the
/// command carries exactly the intent.
pub proof fn intent_commands_round_trip(intent: Intent)
    ensures
        intent.command_kind().is_command(),
        !(intent.command_kind() is VoiceCommand),
        command_view(intent.command_kind()) == Some(intent@),
{
}

} // verus!
