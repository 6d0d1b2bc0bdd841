//! Bus integration: what the voice loop does with each event.
//!
//! For every [`VoiceCommand`](EventKind::VoiceCommand) the loop parses the
//! transcript and, on success, publishes the corresponding command event (e.g.
//! `MediaControl`) for the owning service to consume. Unrecognized
//! transcripts are reported and dropped; every other event is ignored.

use crate::common::event::owner;
use crate::common::{Event, EventKind, ServiceId};
use crate::voice::api::v1::VoiceApi;
use crate::voice::error::ServiceError;
use crate::voice::intent::command_view;
use crate::voice::service::{parse_intent_spec, VoiceService};
use vstd::prelude::*;

verus! {

/// Decide what the voice loop does with one bus event: `None` to ignore it,
/// `Some(Ok(event))` to publish `event`, `Some(Err(e))` to report `e`.
pub fn handle_event(service: &VoiceService, kind: &EventKind) -> (r: Option<
    Result<Event, ServiceError>,
>)
    ensures
        r is Some <==> owner(*kind) == Some(ServiceId::Voice),
        match kind {
            EventKind::VoiceCommand { transcript } => match r {
                Some(Ok(event)) => event.source == ServiceId::Voice && command_view(event.kind)
                    == parse_intent_spec(transcript@) && parse_intent_spec(transcript@) is Some,
                Some(Err(e)) => parse_intent_spec(transcript@) is None && (e matches ServiceError::Unrecognized(t) && t@ == transcript@),
                None => false,
            },
            _ => r is None,
        },
{
    match kind {
        EventKind::VoiceCommand { transcript } => match service.parse(transcript.as_str()) {
            Ok(intent) => Some(Ok(intent.into_event())),
            Err(e) => Some(Err(e)),
        },
        _ => None,
    }
}

} // verus!
