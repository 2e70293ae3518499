//! The webhook authentication pipeline, end to end.

use octoapp::error::error_status;
use octoapp::events::Event;
use octoapp::pipeline::{
    dispatch_status, process_webhook, ApiResponse, OctoAppApiError, OctoAppState, WebhookRejection,
};
use octoapp::OctoAppConfig;
use octoapp::OctoAppError;

fn config() -> OctoAppConfig {
    OctoAppConfig::init()
        .app_id(12345)
        .webhook_secret(String::from("a fine long secret"))
        .build()
        .unwrap()
}

const LIMIT: usize = 1024 * 1024;

#[test]
fn valid_ping_is_accepted() {
    let config = config();
    let body = b"{\"zen\":\"Responsive is better than fast.\",\"hook_id\":1}".to_vec();
    let sig = config.webhook_signature_create(&body).unwrap();
    let r = process_webhook(&config, true, true, Some(sig), Some(body), LIMIT);
    match r {
        Ok(w) => match w.into_inner() {
            Event::Ping(p) => assert_eq!(p.hook_id, 1),
            other => panic!("expected Ping, got {:?}", other),
        },
        Err(rej) => panic!("expected acceptance, got {:?}", rej),
    }
}

#[test]
fn tampered_signature_is_unauthorized() {
    let config = config();
    let body = b"{\"zen\":\"z\",\"hook_id\":1}".to_vec();
    let mut sig = config.webhook_signature_create(&body).unwrap();
    sig.pop();
    sig.push('0');
    let r = process_webhook(&config, true, true, Some(sig), Some(body), LIMIT);
    assert_eq!(r.unwrap_err().status(), 401);
}

#[test]
fn oversized_body_is_payload_too_large() {
    let config = config();
    let body = vec![b'x'; 10 * 1024 * 1024];
    let sig = config.webhook_signature_create(&body).unwrap();
    let r = process_webhook(&config, true, true, Some(sig), Some(body), LIMIT);
    assert_eq!(r.unwrap_err(), WebhookRejection::PayloadTooLarge);
    assert_eq!(WebhookRejection::PayloadTooLarge.status(), 413);
}

#[test]
fn wrong_path_is_not_found() {
    let config = config();
    let body = b"{}".to_vec();
    let sig = config.webhook_signature_create(&body).unwrap();
    let r = process_webhook(&config, true, false, Some(sig.clone()), Some(body.clone()), LIMIT);
    assert_eq!(r.unwrap_err().status(), 404);
    let r = process_webhook(&config, false, true, Some(sig), Some(body), LIMIT);
    assert_eq!(r.unwrap_err(), WebhookRejection::NotFound);
}

#[test]
fn missing_header_is_unauthorized() {
    let config = config();
    let r = process_webhook(&config, true, true, None, Some(b"{}".to_vec()), LIMIT);
    assert_eq!(r.unwrap_err(), WebhookRejection::Unauthorized);
}

#[test]
fn unreadable_body_is_bad_request() {
    let config = config();
    let sig = config.webhook_signature_create(b"").unwrap();
    let r = process_webhook(&config, true, true, Some(sig), None, LIMIT);
    assert_eq!(r.unwrap_err(), WebhookRejection::BadRequest);
}

#[test]
fn non_utf8_body_is_bad_request() {
    let config = config();
    let body = vec![0xff, 0xfe, 0xfd];
    let sig = config.webhook_signature_create(&body).unwrap();
    let r = process_webhook(&config, true, true, Some(sig), Some(body), LIMIT);
    assert_eq!(r.unwrap_err(), WebhookRejection::BadRequest);
}

#[test]
fn unknown_payload_is_bad_request() {
    let config = config();
    let body = b"{\"utterly\":\"unknown\"}".to_vec();
    let sig = config.webhook_signature_create(&body).unwrap();
    let r = process_webhook(&config, true, true, Some(sig), Some(body), LIMIT);
    assert_eq!(r.unwrap_err(), WebhookRejection::BadRequest);
}

#[test]
fn handler_outcome_maps_to_status() {
    assert_eq!(dispatch_status(&Ok(())), 200);
    assert_eq!(
        dispatch_status(&Err(OctoAppError::UnknownError)),
        500
    );
}

#[test]
fn error_statuses_match_the_taxonomy() {
    let (s, m) = error_status(&OctoAppError::SignatureError(String::from("x")));
    assert_eq!((s, m), (401, "Unauthorized"));
    let (s, m) = error_status(&OctoAppError::LimitExceeded);
    assert_eq!((s, m), (413, "Payload too large"));
    let (s, m) = error_status(&OctoAppError::IoError(String::from("x")));
    assert_eq!((s, m), (500, "IO error"));
    let (s, m) = error_status(&OctoAppError::UnknownError);
    assert_eq!((s, m), (400, "Bad request"));
    let (s, _) = error_status(&OctoAppError::DeserializationError);
    assert_eq!(s, 400);
}

#[test]
fn api_error_bodies_never_leak_detail() {
    let e = OctoAppError::MissingField(String::from("AppID"));
    let body = OctoAppApiError::from_error(&e);
    assert_eq!(body.status, "error");
    assert_eq!(body.message.unwrap(), "Bad request");
    // the detailed rendering stays available for this side's logs
    assert_eq!(e.message(), "Missing required field: AppID");

    match ApiResponse::for_error(&OctoAppError::OctocrabInstallationError(9)) {
        ApiResponse::InternalServerError { inner } => {
            assert_eq!(inner.0, 500);
            assert_eq!(inner.1.status, "error");
            assert_eq!(inner.1.message.unwrap(), "Internal Server Error");
        }
        other => panic!("unexpected response {:?}", other),
    }
    match ApiResponse::for_error(&OctoAppError::LimitExceeded) {
        ApiResponse::InternalServerError { inner } => assert_eq!(inner.0, 400),
        other => panic!("unexpected response {:?}", other),
    }
}

#[test]
fn state_holds_the_configuration() {
    let state = OctoAppState::new(config());
    assert_eq!(state.config.app_id(), 12345);
}

#[test]
fn installation_client_requires_an_id() {
    let config = config();
    match config.octocrab_by_installation(0) {
        Err(OctoAppError::OctocrabInstallationError(id)) => assert_eq!(id, 0),
        other => panic!("expected OctocrabInstallationError, got {:?}", other),
    }
    // with an id but no signing key, the missing key is reported
    match config.octocrab_by_installation(5) {
        Err(OctoAppError::MissingField(f)) => assert_eq!(f, "Client Key"),
        other => panic!("expected MissingField, got {:?}", other),
    }
}

#[test]
fn error_messages_render() {
    assert_eq!(
        OctoAppError::WebhookSecretError(7).message(),
        "Webhook Secret Error: secret is less than 8 characters: 7"
    );
    assert_eq!(OctoAppError::LimitExceeded.message(), "Data limit exceeded");
}
