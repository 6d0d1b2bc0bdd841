//! The wire protocol spoken between the gateway and the frontend.
//!
//! - [`ClientCommand`] — client → server: a user action from the UI.
//! - [`ServerEvent`] — server → client: a flattened view of a bus [`Event`],
//!   so the UI can render live state.

use crate::common::{Event, EventKind, ServiceId};
use vstd::prelude::*;

verus! {

/// A command sent from the frontend to the gateway.
///
/// Each variant maps onto a bus [`Event`] via [`ClientCommand::into_event`].
/// The UI's play/pause/next buttons send [`ClientCommand::Voice`] with a short
/// transcript, reusing the exact voice→media flow the voice service drives.
#[derive(Debug, Clone, PartialEq, Eq)]
pub enum ClientCommand {
    /// Inject a voice command transcript (e.g. `"play music"`, `"pause"`).
    Voice {
        /// The command text.
        transcript: String,
    },
    /// Set the navigation destination.
    SetDestination {
        /// Human-readable destination.
        destination: String,
    },
    /// Change a user setting.
    SetSetting {
        /// Setting key, e.g. `"volume"`.
        key: String,
        /// New value as a string.
        value: String,
    },
}

impl ClientCommand {
    /// The command payload this client command becomes on the bus.
    pub open spec fn command_kind(self) -> EventKind {
        match self {
            ClientCommand::Voice { transcript } => EventKind::VoiceCommand { transcript },
            ClientCommand::SetDestination { destination } => EventKind::SetDestination {
                destination,
            },
            ClientCommand::SetSetting { key, value } => EventKind::SetSetting { key, value },
        }
    }

    /// Turn this command into a bus command [`Event`] originating from
    /// the [`ServiceId::Gateway`].
    ///
    /// Each variant maps to the command owned by the relevant service, so the
    /// gateway never publishes state directly — services do that in response.
    pub fn into_event(self) -> (r: Event)
        ensures
            r.source == ServiceId::Gateway,
            r.kind == self.command_kind(),
    {
        let kind = match self {
            ClientCommand::Voice { transcript } => EventKind::VoiceCommand { transcript },
            ClientCommand::SetDestination { destination } => EventKind::SetDestination {
                destination,
            },
            ClientCommand::SetSetting { key, value } => EventKind::SetSetting { key, value },
        };
        Event::new(ServiceId::Gateway, kind)
    }
}

/// The gateway only ever publishes commands, never state.
pub proof fn client_commands_are_commands(command: ClientCommand)
    ensures
        command.command_kind().is_command(),
        !command.command_kind().is_state(),
{
}

/// An event forwarded from the bus to the frontend: the envelope's `source`
/// and `ts_millis` alongside the payload, so the client sees one flat object.
#[derive(Debug, Clone, PartialEq)]
pub struct ServerEvent {
    /// Which service produced the event.
    pub source: ServiceId,
    /// Milliseconds since the Unix epoch.
    pub ts_millis: u128,
    /// The payload.
    pub kind: EventKind,
}

impl From<Event> for ServerEvent {
    fn from(event: Event) -> (r: Self) {
        ServerEvent { source: event.source, ts_millis: event.ts_millis, kind: event.kind }
    }
}

impl vstd::std_specs::convert::FromSpecImpl<Event> for ServerEvent {
    open spec fn obeys_from_spec() -> bool {
        true
    }

    open spec fn from_spec(event: Event) -> ServerEvent {
        ServerEvent { source: event.source, ts_millis: event.ts_millis, kind: event.kind }
    }
}

} // verus!
