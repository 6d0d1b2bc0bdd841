//! Version 1 of the navigation service API.

use crate::nav::error::ServiceError;
use crate::nav::types::NavStatus;
use crate::text::trim_spec;
use vstd::prelude::*;

verus! {

/// The navigation contract.
///
/// Every successful call returns the resulting [`NavStatus`]. The state is
/// the active destination ([`NavApi::destination`]), `None` when idle.
pub trait NavApi {
    /// The active destination, if any.
    spec fn destination(&self) -> Option<Seq<char>>;

    /// Set the active destination to `destination` without its surrounding
    /// whitespace.
    ///
    /// # Errors
    /// [`ServiceError::EmptyDestination`] if `destination` is blank; the state
    /// is then unchanged.
    fn set_destination(&mut self, destination: &str) -> (r: Result<NavStatus, ServiceError>)
        ensures
            trim_spec(destination@).len() == 0 ==> {
                &&& r == Err::<NavStatus, ServiceError>(ServiceError::EmptyDestination)
                &&& final(self).destination() == old(self).destination()
            },
            trim_spec(destination@).len() > 0 ==> {
                &&& final(self).destination() == Some(trim_spec(destination@))
                &&& r matches Ok(status)
                &&& status.view_destination() == Some(trim_spec(destination@))
            },
    ;

    /// Clear the destination, returning navigation to idle. Always succeeds.
    fn clear(&mut self) -> (r: Result<NavStatus, ServiceError>)
        ensures
            final(self).destination() is None,
            r matches Ok(status) && status.destination is None,
    ;

    /// Read the current navigation status without changing anything.
    fn current(&self) -> (r: Result<NavStatus, ServiceError>)
        ensures
            r matches Ok(status) && status.view_destination() == self.destination(),
    ;
}

} // verus!
