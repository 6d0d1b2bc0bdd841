//! Identifiers for the services that make up the system.

use vstd::prelude::*;

verus! {

/// Identifies a single service in the `dash` system.
///
/// Every event records the [`ServiceId`] that produced it, so subscribers can
/// filter by source and the gateway can label state updates it forwards.
#[derive(Debug, Clone, Copy, PartialEq, Eq, Hash, Structural)]
pub enum ServiceId {
    /// Turn-by-turn navigation and destination management.
    Nav,
    /// Audio playback (play / pause / track state).
    Media,
    /// Speech-to-intent parsing; the source of most commands.
    Voice,
    /// User-facing settings (volume, theme, units).
    Settings,
    /// The WebSocket bridge to the frontend.
    Gateway,
}

/// The stable lowercase name of each service.
pub open spec fn service_name(id: ServiceId) -> Seq<char> {
    match id {
        ServiceId::Nav => seq!['n', 'a', 'v'],
        ServiceId::Media => seq!['m', 'e', 'd', 'i', 'a'],
        ServiceId::Voice => seq!['v', 'o', 'i', 'c', 'e'],
        ServiceId::Settings => seq!['s', 'e', 't', 't', 'i', 'n', 'g', 's'],
        ServiceId::Gateway => seq!['g', 'a', 't', 'e', 'w', 'a', 'y'],
    }
}

impl ServiceId {
    /// A stable, lowercase string name — handy for logs and JSON keys.
    pub fn as_str(self) -> (r: &'static str)
        ensures
            r@ == service_name(self),
    {
        match self {
            ServiceId::Nav => {
                proof { reveal_strlit("nav"); }
                "nav"
            },
            ServiceId::Media => {
                proof { reveal_strlit("media"); }
                "media"
            },
            ServiceId::Voice => {
                proof { reveal_strlit("voice"); }
                "voice"
            },
            ServiceId::Settings => {
                proof { reveal_strlit("settings"); }
                "settings"
            },
            ServiceId::Gateway => {
                proof { reveal_strlit("gateway"); }
                "gateway"
            },
        }
    }
}

/// Distinct services have distinct names, so a name identifies its service.
pub proof fn service_names_are_distinct(a: ServiceId, b: ServiceId)
    requires
        a != b,
    ensures
        service_name(a) != service_name(b),
{
    if service_name(a) == service_name(b) {
        assert(service_name(a).len() == service_name(b).len());
        assert(service_name(a)[0] == service_name(b)[0]);
    }
}

} // verus!
