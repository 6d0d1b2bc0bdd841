//! Bus integration: what the nav loop does with each event.
//!
//! For every [`SetDestination`](EventKind::SetDestination) command the loop
//! updates the [`NavService`] and publishes the resulting `NavState`. A blank
//! destination is reported and skipped; every other event is ignored.

use crate::common::event::owner;
use crate::common::{Event, EventKind, ServiceId};
use crate::nav::api::v1::NavApi;
use crate::nav::error::ServiceError;
use crate::nav::service::NavService;
use crate::nav::types::opt_text;
use crate::text::trim_spec;
use vstd::prelude::*;

verus! {

/// Decide what the nav loop does with one bus event: `None` to ignore it,
/// `Some(Ok(event))` to publish `event`, `Some(Err(e))` to report `e`.
pub fn handle_event(service: &mut NavService, kind: &EventKind) -> (r: Option<
    Result<Event, ServiceError>,
>)
    ensures
        r is Some <==> owner(*kind) == Some(ServiceId::Nav),
        match kind {
            EventKind::SetDestination { destination } => if trim_spec(destination@).len() == 0 {
                r == Some(Err::<Event, ServiceError>(ServiceError::EmptyDestination))
                    && final(service).destination() == old(service).destination()
            } else {
                &&& final(service).destination() == Some(trim_spec(destination@))
                &&& r matches Some(Ok(event))
                &&& event.source == ServiceId::Nav
                &&& event.kind matches EventKind::NavState { destination: d }
                &&& opt_text(d) == Some(trim_spec(destination@))
            },
            _ => r is None && final(service).destination() == old(service).destination(),
        },
{
    let destination = match kind {
        EventKind::SetDestination { destination } => destination,
        _ => return None,
    };
    match service.set_destination(destination.as_str()) {
        Ok(status) => Some(
            Ok(Event::new(ServiceId::Nav, EventKind::NavState { destination: status.destination })),
        ),
        Err(e) => Some(Err(e)),
    }
}

} // verus!
