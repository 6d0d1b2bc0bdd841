//! Bus integration: what the settings loop does with each event.
//!
//! For every [`SetSetting`](EventKind::SetSetting) command the loop applies it
//! via the [`SettingsService`] and publishes the resulting `SettingsState`.
//! Invalid commands are reported and dropped; every other event is ignored.

use crate::common::event::owner;
use crate::common::{Event, EventKind, ServiceId};
use crate::settings::api::v1::SettingsApi;
use crate::settings::error::ServiceError;
use crate::settings::service::SettingsService;
use crate::settings::types::{validate_spec, validated, Validation};
use vstd::prelude::*;

verus! {

/// Decide what the settings loop does with one bus event: `None` to ignore
/// it, `Some(Ok(event))` to publish `event`, `Some(Err(e))` to report `e`.
pub fn handle_event(service: &mut SettingsService, kind: &EventKind) -> (r: Option<
    Result<Event, ServiceError>,
>)
    ensures
        r is Some <==> owner(*kind) == Some(ServiceId::Settings),
        match kind {
            EventKind::SetSetting { key, value } => match validate_spec(key@, value@) {
                Validation::Accepted(n) => {
                    &&& final(service).values() == old(service).values().insert(key@, n)
                    &&& r matches Some(Ok(event))
                    &&& event.source == ServiceId::Settings
                    &&& event.kind matches EventKind::SettingsState { key: k, value: v }
                    &&& k@ == key@
                    &&& v@ == n
                },
                _ => {
                    &&& final(service).values() == old(service).values()
                    &&& r matches Some(Err(e))
                    &&& validated(key@, value@, Err(e))
                },
            },
            _ => r is None && final(service).values() == old(service).values(),
        },
{
    let (key, value) = match kind {
        EventKind::SetSetting { key, value } => (key, value),
        _ => return None,
    };
    match service.set(key.as_str(), value.as_str()) {
        Ok(normalized) => Some(
            Ok(
                Event::new(
                    ServiceId::Settings,
                    EventKind::SettingsState { key: key.clone(), value: normalized },
                ),
            ),
        ),
        Err(e) => Some(Err(e)),
    }
}

} // verus!
