//! The concrete navigation service: destination state + the [`NavApi`] impl.

use crate::nav::api::v1::NavApi;
use crate::nav::error::ServiceError;
use crate::nav::types::{opt_text, NavStatus};
use crate::text::{lemma_trim_idempotent, trim, trim_spec};
use vstd::prelude::*;

verus! {

broadcast use vstd::string::group_string_axioms;

/// The navigation service: the active destination, if any.
#[derive(Debug, Default)]
pub struct NavService {
    destination: Option<String>,
}

impl NavService {
    /// Create an idle navigation service with no destination.
    pub fn new() -> (r: Self)
        ensures
            r.destination() is None,
    {
        NavService { destination: None }
    }

    fn snapshot(dest: &Option<String>) -> (r: NavStatus)
        ensures
            r.destination == *dest,
    {
        let destination = match dest {
            Some(d) => Some(d.clone()),
            None => None,
        };
        NavStatus { destination }
    }
}

impl NavApi for NavService {
    closed spec fn destination(&self) -> Option<Seq<char>> {
        opt_text(self.destination)
    }

    fn set_destination(&mut self, destination: &str) -> (r: Result<NavStatus, ServiceError>) {
        let trimmed = trim(destination);
        if trimmed.is_empty() {
            return Err(ServiceError::EmptyDestination);
        }
        self.destination = Some(trimmed.to_string());
        Ok(Self::snapshot(&self.destination))
    }

    fn clear(&mut self) -> (r: Result<NavStatus, ServiceError>) {
        self.destination = None;
        Ok(Self::snapshot(&self.destination))
    }

    fn current(&self) -> (r: Result<NavStatus, ServiceError>) {
        Ok(Self::snapshot(&self.destination))
    }
}

// ----- Laws -----

/// Submitting the destination that a status reported sets the same
/// destination again: a stored destination is already trimmed, and it is
/// never blank.
pub proof fn reported_destination_is_stable(destination: Seq<char>)
    requires
        trim_spec(destination).len() > 0,
    ensures
        trim_spec(trim_spec(destination)) == trim_spec(destination),
        trim_spec(trim_spec(destination)).len() > 0,
{
    lemma_trim_idempotent(destination);
}

} // verus!
