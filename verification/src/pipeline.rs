//! The per-request webhook authentication pipeline: one pure function from
//! a request's parts to either a decoded webhook or a rejection, plus the
//! response shapes HTTP adapters hand back.
//!
//! A request moves through the stages in a fixed order: method and path,
//! signature header, body read, size limit, text encoding, signature check,
//! payload decode.  The first stage that fails decides the rejection, and
//! every rejection carries only a status and a generic message — never the
//! internal detail.

use crate::config::{spec_verify, OctoAppConfig};
use crate::error::OctoAppError;
use crate::events::{event_view, spec_decode, spec_installation_id, Event, WebHook};
use crate::json::sp_doc;
use vstd::prelude::*;
use vstd::utf8::{encode_utf8, valid_utf8};

verus! {

/// Shared per-process state for webhook handling: the configuration, held
/// read-only across concurrent request handlers.
pub struct OctoAppState {
    /// The configuration for the App.
    pub config: OctoAppConfig,
}

impl OctoAppState {
    /// Create a new state holding the given configuration.
    pub fn new(config: OctoAppConfig) -> (r: Self)
        ensures
            r.config == config,
    {
        OctoAppState { config }
    }
}

/// Each way the pipeline can turn a request away.
#[derive(Debug, Clone, Copy, PartialEq, Eq, Structural)]
pub enum WebhookRejection {
    /// The request used the wrong method or path.
    NotFound,
    /// The signature header was absent, or the signature did not match.
    Unauthorized,
    /// The body exceeded the configured size limit.
    PayloadTooLarge,
    /// The body could not be read, was not UTF-8 text, was not well-formed
    /// JSON, or matched no known event shape.
    BadRequest,
}

/// The HTTP status for each rejection.
pub open spec fn spec_rejection_status(r: WebhookRejection) -> u16 {
    match r {
        WebhookRejection::NotFound => 404,
        WebhookRejection::Unauthorized => 401,
        WebhookRejection::PayloadTooLarge => 413,
        WebhookRejection::BadRequest => 400,
    }
}

impl WebhookRejection {
    /// The HTTP status this rejection maps to.
    pub fn status(&self) -> (r: u16)
        ensures
            r == spec_rejection_status(*self),
    {
        match self {
            WebhookRejection::NotFound => 404,
            WebhookRejection::Unauthorized => 401,
            WebhookRejection::PayloadTooLarge => 413,
            WebhookRejection::BadRequest => 400,
        }
    }
}

/// What the decode stage owes for a body that reached it: the outcome is
/// exactly what parsing the body's text gives.
pub open spec fn spec_decode_stage(bytes: Seq<u8>, r: Result<WebHook<Event>, WebhookRejection>) -> bool {
    exists|t: Seq<char>|
        #[trigger] encode_utf8(t) == bytes && match r {
            Ok(w) => sp_doc(t) matches Some(d) && spec_decode(d) == Some(event_view(w.0)) && w.1
                == spec_installation_id(d),
            Err(rej) => rej == WebhookRejection::BadRequest && (sp_doc(t) is None || (sp_doc(t)
                matches Some(d) && spec_decode(d) is None)),
        }
}

/// Drive one request through the pipeline.  `signature` is the
/// `X-Hub-Signature-256` header when the request carried one; `body` is the
/// request body when it could be read.  Each clause below is one stage of
/// the state machine, in the order the stages run.
pub fn process_webhook(
    config: &OctoAppConfig,
    method_is_post: bool,
    path_matches: bool,
    signature: Option<String>,
    body: Option<Vec<u8>>,
    limit: usize,
) -> (r: Result<WebHook<Event>, WebhookRejection>)
    ensures
        !(method_is_post && path_matches) ==> r == Err::<WebHook<Event>, WebhookRejection>(
            WebhookRejection::NotFound,
        ),
        method_is_post && path_matches && signature is None ==> r == Err::<
            WebHook<Event>,
            WebhookRejection,
        >(WebhookRejection::Unauthorized),
        method_is_post && path_matches && signature is Some && body is None ==> r == Err::<
            WebHook<Event>,
            WebhookRejection,
        >(WebhookRejection::BadRequest),
        method_is_post && path_matches && signature is Some && body is Some && body->Some_0@.len()
            > limit ==> r == Err::<WebHook<Event>, WebhookRejection>(
            WebhookRejection::PayloadTooLarge,
        ),
        method_is_post && path_matches && signature is Some && body is Some && body->Some_0@.len()
            <= limit && !valid_utf8(body->Some_0@) ==> r == Err::<WebHook<Event>, WebhookRejection>(
            WebhookRejection::BadRequest,
        ),
        method_is_post && path_matches && signature is Some && body is Some && body->Some_0@.len()
            <= limit && valid_utf8(body->Some_0@) && !spec_verify(
            config.spec_webhook_secret(),
            body->Some_0@,
            signature->Some_0@,
        ) ==> r == Err::<WebHook<Event>, WebhookRejection>(WebhookRejection::Unauthorized),
        method_is_post && path_matches && signature is Some && body is Some && body->Some_0@.len()
            <= limit && valid_utf8(body->Some_0@) && spec_verify(
            config.spec_webhook_secret(),
            body->Some_0@,
            signature->Some_0@,
        ) ==> spec_decode_stage(body->Some_0@, r),
{
    if !(method_is_post && path_matches) {
        return Err(WebhookRejection::NotFound);
    }
    let sig = match signature {
        Some(s) => s,
        None => {
            return Err(WebhookRejection::Unauthorized);
        },
    };
    let body_bytes = match body {
        Some(b) => b,
        None => {
            return Err(WebhookRejection::BadRequest);
        },
    };
    if body_bytes.len() > limit {
        return Err(WebhookRejection::PayloadTooLarge);
    }
    let text = match crate::strutil::bytes_to_str(body_bytes.as_slice()) {
        Some(t) => t,
        None => {
            return Err(WebhookRejection::BadRequest);
        },
    };
    if !config.webhook_signature_verification(body_bytes.as_slice(), sig) {
        return Err(WebhookRejection::Unauthorized);
    }
    match crate::events::parse_webhook(text) {
        Ok(w) => {
            proof {
                assert(encode_utf8(text@) == body_bytes@);
            }
            Ok(w)
        },
        Err(_) => {
            proof {
                assert(encode_utf8(text@) == body_bytes@);
            }
            Err(WebhookRejection::BadRequest)
        },
    }
}

/// What the dispatch stage answers once a handler ran: 200 for success,
/// 500 for a handler failure; the error's detail never reaches the client.
pub fn dispatch_status(handler_result: &Result<(), OctoAppError>) -> (r: u16)
    ensures
        handler_result is Ok ==> r == 200,
        handler_result is Err ==> r == 500,
{
    match handler_result {
        Ok(_) => 200,
        Err(_) => 500,
    }
}

/// A JSON-rendered API error body: a status line and an optional message.
#[derive(Debug, PartialEq)]
pub struct OctoAppApiError {
    /// The status line of the response body.
    pub status: String,
    /// The accompanying message, when any.
    pub message: Option<String>,
}

impl OctoAppApiError {
    /// The body for an error: the status word `error` and the generic
    /// message of the error's status class — never the error's own detail,
    /// which stays on this side for logging (see
    /// [`OctoAppError::message`](crate::error::OctoAppError::message)).
    pub fn from_error(value: &OctoAppError) -> (r: Self)
        ensures
            r.status@ == "error"@,
            (r.message matches Some(m) && m@ == crate::error::spec_error_status_text(*value)),
    {
        let (_, text) = crate::error::error_status(value);
        OctoAppApiError { status: String::from_str("error"), message: Some(String::from_str(text)) }
    }
}

/// Which status an error carries when it surfaces as an API response:
/// GitHub client failures are internal errors, everything else was the
/// caller's fault.
pub open spec fn spec_api_status(e: OctoAppError) -> u16 {
    match e {
        OctoAppError::OctocrabError(_) => 500,
        OctoAppError::OctocrabInstallationError(_) => 500,
        _ => 400,
    }
}

/// An API response carrying an error body.
#[derive(Debug, PartialEq)]
pub enum ApiResponse {
    /// A response turning an unauthenticated caller away.
    Unauthorized {
        /// The status code and body.
        inner: (u16, OctoAppApiError),
    },
    /// A response reporting a failure on this side.
    InternalServerError {
        /// The status code and body.
        inner: (u16, OctoAppApiError),
    },
}

impl ApiResponse {
    /// The response for an error: its status per [`spec_api_status`], and a
    /// body of fixed text in both fields, independent of the error's
    /// payload.  The error's own description is for this side's logs and
    /// never reaches the client.
    pub fn for_error(error: &OctoAppError) -> (r: ApiResponse)
        ensures
            (r matches ApiResponse::InternalServerError { inner } && inner.0 == spec_api_status(
                *error,
            ) && inner.1.status@ == "error"@ && (inner.1.message matches Some(m) && m@
                == "Internal Server Error"@)),
    {
        let status: u16 = match error {
            OctoAppError::OctocrabError(_) => 500,
            OctoAppError::OctocrabInstallationError(_) => 500,
            _ => 400,
        };
        ApiResponse::InternalServerError {
            inner: (
                status,
                OctoAppApiError {
                    status: String::from_str("error"),
                    message: Some(String::from_str("Internal Server Error")),
                },
            ),
        }
    }
}

} // verus!
