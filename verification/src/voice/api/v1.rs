//! Version 1 of the voice service API.

use crate::voice::error::ServiceError;
use crate::voice::intent::Intent;
use crate::voice::service::parse_intent_spec;
use vstd::prelude::*;

verus! {

/// The speech-to-intent contract.
///
/// The voice service is stateless: it turns a raw transcript into a structured
/// [`Intent`]. It does not act on the intent — the runner publishes it onto the
/// bus for the owning service (media / nav / settings) to handle.
pub trait VoiceApi {
    /// Parse a raw transcript into an [`Intent`].
    ///
    /// # Errors
    /// [`ServiceError::Unrecognized`], carrying the transcript, if it matches
    /// no known command.
    fn parse(&self, transcript: &str) -> (r: Result<Intent, ServiceError>)
        ensures
            match r {
                Ok(intent) => parse_intent_spec(transcript@) == Some(intent@),
                Err(e) => parse_intent_spec(transcript@) is None && (e matches ServiceError::Unrecognized(t) && t@ == transcript@),
            },
    ;
}

} // verus!
