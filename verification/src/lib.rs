//! Receiver-side logic for source-control push notifications.
//!
//! A push notification is an HTTP request whose body is a JSON document and
//! whose `X-Hub-Signature-256` header carries the HMAC-SHA-256 of that body
//! under a secret that sender and receiver share. This library checks the
//! signature over the raw bytes, reads the push event from the body, and
//! decides by the updated ref whether the push is acted on.
//!
//! - [`signature`]: the signature header, hexadecimal digests, the keyed hash.
//! - [`json`]: JSON documents as trees, and typed access to their members.
//! - [`document`]: from bytes to a tree, by way of `serde_json`.
//! - [`payload`]: the push event and its parts, each read from a tree.
//! - [`decode`]: from the bytes of a body to a push event.
//! - [`handler`]: the handling of one request from headers and body to the
//!   response, the log records and the event that is handed on.
//!
//! The library does no input or output. The server around it receives the
//! request, calls [`handle_webhook`], writes the log and sends the response.

pub mod decode;
pub mod document;
pub mod handler;
pub mod json;
pub mod payload;
pub mod signature;

pub use crate::decode::{decode_push_event, push_event_from_document, DecodeError};
pub use crate::document::parse_document;
pub use crate::handler::{
    commit_record, commit_records, handle_webhook, message, push_notice, reject, respond,
    root_status, route_event, short_id, CommitRecord, Disposition, Outcome, Response,
    StatusReport, WebhookConfig, WebhookError, DEFAULT_TARGET_REF, SHORT_ID_LEN,
};
pub use crate::json::Json;
pub use crate::payload::{
    CommitAuthor, CommitDetails, GitHubPayloadBody, Owner, Pusher, Repository, Sender,
};
pub use crate::signature::{
    compute_signature, find_header, get_signature_from_header, names_match, starts_with,
    verify_signature, Header, SignatureError, MAX_MESSAGE_LEN, MAX_SECRET_LEN, SIGNATURE_HEADER,
    SIGNATURE_PREFIX,
};
