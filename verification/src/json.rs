//! Trusted boundary to the JSON decoder.

use vstd::prelude::*;

verus! {

/// Declares serde_json::Error (opaque here) so the decoder's failure can
/// pass through signatures before it is mapped to this crate's error type.
#[verifier::external_type_specification]
#[verifier::external_body]
pub struct ExSerdeJsonError(serde_json::Error);

/// Relies on serde_json::from_slice: decodes `body` as JSON into a `J`, or
/// reports why it cannot. Nothing is promised of the outcome: it depends on
/// the deserialization rules of `J`.
#[verifier::external_body]
pub(crate) fn decode_slice<J: serde::de::DeserializeOwned>(body: &[u8]) -> (r: Result<
    J,
    serde_json::Error,
>) {
    serde_json::from_slice(body)
}

/// Relies on the Display implementation of serde_json::Error for the
/// decoder's message text; nothing is promised of its content.
#[verifier::external_body]
pub(crate) fn decode_error_text(e: &serde_json::Error) -> (r: String) {
    format!("{}", e)
}

} // verus!
