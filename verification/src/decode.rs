//! From the bytes of a request body to a push event.

use crate::document::{json_document, parse_document};
use crate::json::{Json, JsonValue};
use crate::payload::GitHubPayloadBody;
use vstd::prelude::*;

verus! {

/// Why a request body could not be read as a push event.
#[derive(Clone, Copy, Debug, PartialEq, Eq, Structural)]
pub enum DecodeError {
    /// The body is not one JSON document.
    InvalidJson,
    /// The document lacks a required member, or holds a member of the wrong
    /// kind.
    InvalidPayload,
}

/// The document of the push event that `body` spells, or why there is none.
pub open spec fn push_event_in(body: Seq<u8>) -> Result<JsonValue, DecodeError> {
    match json_document(body) {
        None => Err(DecodeError::InvalidJson),
        Some(document) => if GitHubPayloadBody::decodable(document) {
            Ok(document)
        } else {
            Err(DecodeError::InvalidPayload)
        },
    }
}

/// Reads a push event from a JSON document.
pub fn push_event_from_document(document: &Json) -> (r: Result<GitHubPayloadBody, DecodeError>)
    ensures
        r is Ok <==> GitHubPayloadBody::decodable(document@),
        r matches Ok(event) ==> event.decoded_from(document@),
        r matches Err(e) ==> e == DecodeError::InvalidPayload,
{
    match GitHubPayloadBody::decode(document) {
        Some(event) => Ok(event),
        None => Err(DecodeError::InvalidPayload),
    }
}

/// Reads a push event from the bytes of a request body.
pub fn decode_push_event(body: &[u8]) -> (r: Result<GitHubPayloadBody, DecodeError>)
    ensures
        match r {
            Ok(event) => push_event_in(body@) matches Ok(document) && event.decoded_from(document),
            Err(e) => push_event_in(body@) == Err::<JsonValue, DecodeError>(e),
        },
{
    match parse_document(body) {
        Some(document) => push_event_from_document(&document),
        None => Err(DecodeError::InvalidJson),
    }
}

} // verus!
