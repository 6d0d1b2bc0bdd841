//! Domain types for the navigation service.

use vstd::prelude::*;

verus! {

/// A snapshot of navigation state.
///
/// Returned by every [`v1::NavApi`](crate::nav::v1::NavApi) method and
/// mirrored onto the bus as a `NavState` event.
#[derive(Debug, Clone, PartialEq, Eq)]
pub struct NavStatus {
    /// The active destination, or `None` when navigation is idle.
    pub destination: Option<String>,
}

/// An optional text as an optional character sequence.
pub open spec fn opt_text(s: Option<String>) -> Option<Seq<char>> {
    match s {
        Some(t) => Some(t@),
        None => None,
    }
}

impl NavStatus {
    /// The destination this status reports.
    pub open spec fn view_destination(self) -> Option<Seq<char>> {
        opt_text(self.destination)
    }

    /// An idle status with no destination.
    pub fn idle() -> (r: Self)
        ensures
            r.destination is None,
    {
        NavStatus { destination: None }
    }
}

} // verus!
