//! The crate's error taxonomy, and its mapping onto HTTP status codes.

use crate::json::JsonParseError;
use crate::strutil::dec_rep;
use vstd::prelude::*;

verus! {

/// Everything that can go wrong while building a configuration, verifying a
/// webhook, parsing an event, or obtaining an API client.
#[derive(Debug)]
pub enum OctoAppError {
    /// A required configuration field is absent.
    MissingField(String),
    /// A webhook signature was absent, malformed, or did not match.
    SignatureError(String),
    /// A webhook secret was provided but is shorter than 8 bytes; the
    /// payload is the length it had.
    WebhookSecretError(usize),
    /// An I/O failure, reported by the surrounding application.
    IoError(String),
    /// An error reported by the GitHub API client.
    OctocrabError(octocrab::Error),
    /// No installation could be targeted: the id was zero, or scoping the
    /// client failed; the payload is the offending installation id.
    OctocrabInstallationError(u64),
    /// A webhook body was not well-formed JSON.
    JsonSerializationError(JsonParseError),
    /// A webhook body was well-formed JSON but matched no known event shape.
    DeserializationError,
    /// The signing key could not be parsed.
    JsonWebTokenError(jsonwebtoken::errors::Error),
    /// A webhook body exceeded the configured size limit.
    LimitExceeded,
    /// Anything else.
    UnknownError,
}

/// The message `message` renders for each error.
pub open spec fn spec_message(e: OctoAppError) -> Seq<char> {
    match e {
        OctoAppError::MissingField(s) => "Missing required field: "@ + s@,
        OctoAppError::SignatureError(s) => "Signature Error: "@ + s@,
        OctoAppError::WebhookSecretError(len) => "Webhook Secret Error: secret is less than 8 characters: "@
            + dec_rep(len as nat),
        OctoAppError::IoError(s) => "IO Error: "@ + s@,
        OctoAppError::OctocrabError(_) => "Octocrab Error"@,
        OctoAppError::OctocrabInstallationError(id) => "Octocrab Installation Error: "@ + dec_rep(
            id as nat,
        ),
        OctoAppError::JsonSerializationError(e) => "JSON Serde Error: malformed document at position "@
            + dec_rep(e.pos as nat),
        OctoAppError::DeserializationError => "Deserialization Error: no known event shape matched"@,
        OctoAppError::JsonWebTokenError(_) => "Json Web Token Error"@,
        OctoAppError::LimitExceeded => "Data limit exceeded"@,
        OctoAppError::UnknownError => "Unknown Error"@,
    }
}

/// The HTTP status an error maps to at the pipeline boundary.
pub open spec fn spec_error_status(e: OctoAppError) -> u16 {
    match e {
        OctoAppError::SignatureError(_) => 401,
        OctoAppError::LimitExceeded => 413,
        OctoAppError::IoError(_) => 500,
        _ => 400,
    }
}

/// The generic response body sent with each error status; never the error's
/// own detail.
pub open spec fn spec_error_status_text(e: OctoAppError) -> Seq<char> {
    match e {
        OctoAppError::SignatureError(_) => "Unauthorized"@,
        OctoAppError::LimitExceeded => "Payload too large"@,
        OctoAppError::IoError(_) => "IO error"@,
        _ => "Bad request"@,
    }
}

impl OctoAppError {
    /// A human-readable description of the error.
    pub fn message(&self) -> (r: String)
        ensures
            r@ == spec_message(*self),
    {
        match self {
            OctoAppError::MissingField(s) => {
                let mut m = String::from_str("Missing required field: ");
                m.append(s.as_str());
                m
            },
            OctoAppError::SignatureError(s) => {
                let mut m = String::from_str("Signature Error: ");
                m.append(s.as_str());
                m
            },
            OctoAppError::WebhookSecretError(len) => {
                let mut m = String::from_str(
                    "Webhook Secret Error: secret is less than 8 characters: ",
                );
                crate::strutil::push_u64(&mut m, *len as u64);
                m
            },
            OctoAppError::IoError(s) => {
                let mut m = String::from_str("IO Error: ");
                m.append(s.as_str());
                m
            },
            OctoAppError::OctocrabError(_) => String::from_str("Octocrab Error"),
            OctoAppError::OctocrabInstallationError(id) => {
                let mut m = String::from_str("Octocrab Installation Error: ");
                crate::strutil::push_u64(&mut m, *id);
                m
            },
            OctoAppError::JsonSerializationError(e) => {
                let mut m = String::from_str("JSON Serde Error: malformed document at position ");
                crate::strutil::push_u64(&mut m, e.pos as u64);
                m
            },
            OctoAppError::DeserializationError => String::from_str(
                "Deserialization Error: no known event shape matched",
            ),
            OctoAppError::JsonWebTokenError(_) => String::from_str("Json Web Token Error"),
            OctoAppError::LimitExceeded => String::from_str("Data limit exceeded"),
            OctoAppError::UnknownError => String::from_str("Unknown Error"),
        }
    }
}

/// The HTTP status and generic body for an error, as the webhook pipeline
/// reports it.  The body never carries the error's own detail.
pub fn error_status(error: &OctoAppError) -> (r: (u16, &'static str))
    ensures
        r.0 == spec_error_status(*error),
        r.1@ == spec_error_status_text(*error),
{
    match error {
        OctoAppError::SignatureError(_) => (401, "Unauthorized"),
        OctoAppError::LimitExceeded => (413, "Payload too large"),
        OctoAppError::IoError(_) => (500, "IO error"),
        _ => (400, "Bad request"),
    }
}

} // verus!
