//! Low-level errors shared across the whole system.
//!
//! Each service defines its own error enum for domain-specific failures.
//! [`CoreError`] only covers failures in the shared plumbing — serialization
//! and bus transport — so that every service's error type can wrap it.

use vstd::prelude::*;


verus! {

/// Errors originating in shared infrastructure rather than a specific
/// service's domain logic.
#[derive(Debug, Clone, PartialEq, Eq)]
pub enum CoreError {
    /// An event payload could not be (de)serialized to/from JSON. Carries the
    /// underlying message.
    Serialization(String),
    /// A subscriber tried to receive from the bus but the channel was closed.
    BusClosed,
    /// A subscriber fell behind and the channel dropped messages it never
    /// read. Carries the number of skipped messages.
    Lagged(u64),
}

#[verifier::external_type_specification]
#[verifier::external_body]
pub struct ExJsonError(serde_json::Error);

/// The message of a JSON failure: the text that `serde_json::Error`'s
/// `Display` writes. It depends on the error alone, except for failures of an
/// I/O stream (see [`json_is_io`]), whose text is the operating system's.
pub uninterp spec fn json_message(e: serde_json::Error) -> Seq<char>;

/// What `serde_json::Error::is_io` returns: the failure came from reading or
/// writing an I/O stream rather than from the JSON text or data.
pub uninterp spec fn json_is_io(e: serde_json::Error) -> bool;

/// `serde_json::Error::is_io` returns whether the error's code is an I/O one
/// (`classify() == Category::Io`); its result is named by [`json_is_io`].
pub assume_specification[ serde_json::Error::is_io ](e: &serde_json::Error) -> (r: bool)
    ensures
        r == json_is_io(*e),
;

impl From<serde_json::Error> for CoreError {
    fn from(e: serde_json::Error) -> (r: Self)
        ensures
            r matches CoreError::Serialization(m) && (!json_is_io(e) ==> m@ == json_message(e)),
    {
        CoreError::Serialization(json_error_message(&e))
    }
}

/// Verus learns what a conversion returns from the `ensures` of
/// [`CoreError::from`] itself, which speaks of the message's text only where
/// it depends on the error alone; there is no spec-level conversion to state.
impl vstd::std_specs::convert::FromSpecImpl<serde_json::Error> for CoreError {
    open spec fn obeys_from_spec() -> bool {
        false
    }

    open spec fn from_spec(e: serde_json::Error) -> CoreError {
        vstd::pervasive::arbitrary()
    }
}

/// Calls `serde_json::Error`'s `Display` (through `to_string`): the message
/// of a JSON failure. Its text is named by [`json_message`] for every error
/// that is not an I/O one; the text of an I/O failure is the operating
/// system's and is not stated.
#[verifier::external_body]
fn json_error_message(e: &serde_json::Error) -> (r: String)
    ensures
        !json_is_io(*e) ==> r@ == json_message(*e),
{
    e.to_string()
}

} // verus!
