//! What each half of a client connection decides per message.

use crate::common::{CoreError, Event};
use crate::gateway::protocol::{ClientCommand, ServerEvent};
use vstd::prelude::*;

verus! {

/// What the outbound half does with the result of a bus receive.
pub enum Outbound {
    /// Send this event to the client.
    Forward(ServerEvent),
    /// The client lagged behind the bus by this many events; skip ahead and
    /// keep the connection.
    Skip(u64),
    /// The bus is closed; end the connection.
    Stop,
}

/// Decide what the outbound half does with one bus receive: forward an event
/// in its flattened form, skip ahead after a lag, stop otherwise.
pub fn outbound_step(received: Result<Event, CoreError>) -> (r: Outbound)
    ensures
        match received {
            Ok(event) => r matches Outbound::Forward(se) && se == (ServerEvent {
                source: event.source,
                ts_millis: event.ts_millis,
                kind: event.kind,
            }),
            Err(CoreError::Lagged(n)) => r == Outbound::Skip(n),
            Err(_) => r is Stop,
        },
{
    match received {
        Ok(event) => Outbound::Forward(ServerEvent::from(event)),
        Err(CoreError::Lagged(n)) => Outbound::Skip(n),
        Err(_) => Outbound::Stop,
    }
}

/// A frame received from the client, as the inbound half reads it.
pub enum ClientFrame {
    /// A text frame that parsed as a client command.
    Command(ClientCommand),
    /// A text frame that is not a client command.
    Malformed,
    /// The client closed the connection.
    Close,
    /// Any other frame (binary, ping, pong).
    Other,
}

/// What the inbound half does with one client frame.
pub enum Inbound {
    /// Publish this event on the bus.
    Publish(Event),
    /// Drop the frame and keep reading.
    Ignore,
    /// End the connection.
    Stop,
}

/// Decide what the inbound half does with one client frame: a command is
/// published as a gateway command event, a malformed message is dropped
/// without ending the connection, a close ends it, anything else is ignored.
pub fn inbound_step(frame: ClientFrame) -> (r: Inbound)
    ensures
        match frame {
            ClientFrame::Command(command) => r matches Inbound::Publish(event) && event.source
                == crate::common::ServiceId::Gateway && event.kind == command.command_kind(),
            ClientFrame::Close => r is Stop,
            _ => r is Ignore,
        },
{
    match frame {
        ClientFrame::Command(command) => Inbound::Publish(command.into_event()),
        ClientFrame::Malformed => Inbound::Ignore,
        ClientFrame::Close => Inbound::Stop,
        ClientFrame::Other => Inbound::Ignore,
    }
}

} // verus!
