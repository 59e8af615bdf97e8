//! Errors of a conversation turn.
use vstd::prelude::*;

verus! {

/// Declares `reqwest::Error`, the transport's error, which a failed turn
/// carries through unexamined.
#[verifier::external_type_specification]
#[verifier::external_body]
pub struct ExTransportError(reqwest::Error);

/// Why a turn failed.
#[derive(Debug)]
pub enum GeminiError {
    /// The transport failed: network, HTTP status, or an undecodable body.
    RequestError(reqwest::Error),
    /// The response held no candidate with a text part.
    NoCandidates,
}

} // verus!
