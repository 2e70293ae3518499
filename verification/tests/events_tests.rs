//! The webhook event taxonomy: parsing, decoding order, and round trips.

use octoapp::events::{encode_webhook, parse_webhook, Event};
use octoapp::json::JsonValue;
use octoapp::payloads;
use octoapp::OctoAppError;
use octoapp::WebHook;

#[test]
fn ping_parses_with_installation_id() {
    let body = "{\"installation\":{\"id\":99},\"zen\":\"Keep it logically awesome.\",\"hook_id\":1}";
    let w = parse_webhook(body).unwrap();
    assert_eq!(w.installation(), 99);
    match w.into_inner() {
        Event::Ping(p) => {
            assert_eq!(p.zen, "Keep it logically awesome.");
            assert_eq!(p.hook_id, 1);
        }
        other => panic!("expected Ping, got {:?}", other),
    }
}

#[test]
fn missing_installation_defaults_to_zero() {
    let body = "{\"zen\":\"Anything added dilutes everything else.\",\"hook_id\":5}";
    let w = parse_webhook(body).unwrap();
    assert_eq!(w.installation(), 0);
    // the payload variant still resolves
    match w.0 {
        Event::Ping(_) => {}
        other => panic!("expected Ping, got {:?}", other),
    }
}

#[test]
fn malformed_installation_defaults_to_zero() {
    let body = "{\"installation\":{\"id\":\"not a number\"},\"zen\":\"z\",\"hook_id\":5}";
    assert_eq!(parse_webhook(body).unwrap().installation(), 0);
    let body = "{\"installation\":7,\"zen\":\"z\",\"hook_id\":5}";
    assert_eq!(parse_webhook(body).unwrap().installation(), 0);
}

#[test]
fn unknown_shape_is_a_deserialization_error() {
    let body = "{\"utterly\":\"unknown\",\"shape\":1}";
    match parse_webhook(body) {
        Err(OctoAppError::DeserializationError) => {}
        other => panic!("expected DeserializationError, got {:?}", other),
    }
}

#[test]
fn malformed_text_is_a_serialization_error() {
    match parse_webhook("{not json") {
        Err(OctoAppError::JsonSerializationError(_)) => {}
        other => panic!("expected JsonSerializationError, got {:?}", other),
    }
}

#[test]
fn decode_order_is_declaration_order() {
    // a document carrying both an issue and a comment is an issue_comment,
    // because commit_comment requires the issue member to be absent
    let body = "{\"action\":\"created\",\"issue\":{},\"comment\":{}}";
    match parse_webhook(body).unwrap().into_inner() {
        Event::IssueComment(_) => {}
        other => panic!("expected IssueComment, got {:?}", other),
    }
    // a bare comment is a commit_comment
    let body = "{\"action\":\"created\",\"comment\":{}}";
    match parse_webhook(body).unwrap().into_inner() {
        Event::CommitComment(_) => {}
        other => panic!("expected CommitComment, got {:?}", other),
    }
    // a bare issue is an issues event
    let body = "{\"action\":\"opened\",\"issue\":{}}";
    match parse_webhook(body).unwrap().into_inner() {
        Event::Issues(_) => {}
        other => panic!("expected Issues, got {:?}", other),
    }
}

fn round_trip(event: Event, id: u64) {
    let text = encode_webhook(&event, id);
    let w = parse_webhook(&text).unwrap();
    assert_eq!(w.installation(), id);
    assert_eq!(w.into_inner(), event);
}

#[test]
fn round_trip_ping() {
    round_trip(
        Event::Ping(payloads::PingEvent {
            zen: String::from("Non-blocking is better than blocking."),
            hook_id: 42,
        }),
        7,
    );
}

#[test]
fn round_trip_push() {
    round_trip(
        Event::Push(payloads::PushEvent {
            git_ref: JsonValue::Str(String::from("refs/heads/main")),
            before: JsonValue::Str(String::from("abc")),
            after: JsonValue::Str(String::from("def")),
            commits: JsonValue::Arr(vec![]),
        }),
        31337,
    );
}

#[test]
fn round_trip_issues_with_action() {
    round_trip(
        Event::Issues(payloads::IssuesEvent {
            action: Some(String::from("opened")),
            issue: JsonValue::Obj(vec![(String::from("number"), JsonValue::Int(5))]),
        }),
        12,
    );
}

#[test]
fn round_trip_issues_without_action() {
    round_trip(
        Event::Issues(payloads::IssuesEvent {
            action: None,
            issue: JsonValue::Obj(vec![]),
        }),
        0,
    );
}

#[test]
fn round_trip_watch() {
    round_trip(
        Event::Watch(payloads::WatchEvent {
            repository: JsonValue::Obj(vec![]),
        }),
        3,
    );
}

#[test]
fn round_trip_installation_keeps_its_own_member() {
    // an installation event defines the installation member itself, so the
    // envelope id comes from the payload
    let event = Event::Installation(payloads::InstallationEvent {
        action: Some(String::from("created")),
        installation: JsonValue::Obj(vec![(String::from("id"), JsonValue::Int(55))]),
        repositories: JsonValue::Arr(vec![]),
    });
    let text = encode_webhook(&event, 999);
    let w = parse_webhook(&text).unwrap();
    assert_eq!(w.installation(), 55);
    assert_eq!(w.into_inner(), event);
}

#[test]
fn round_trip_dependabot_alert() {
    // the alert object must carry its dependency marker to round-trip
    round_trip(
        Event::DependabotAlert(payloads::DependabotAlertEvent {
            action: Some(String::from("created")),
            alert: JsonValue::Obj(vec![(String::from("dependency"), JsonValue::Obj(vec![]))]),
        }),
        8,
    );
}

#[test]
fn fractional_numbers_inside_payloads_parse() {
    let body = "{\"action\":\"created\",\"alert\":{\"dependency\":{},\"security_advisory\":{\"cvss\":{\"score\":5.3}}},\"installation\":{\"id\":4}}";
    let w = parse_webhook(body).unwrap();
    assert_eq!(w.installation(), 4);
    match w.into_inner() {
        Event::DependabotAlert(_) => {}
        other => panic!("expected DependabotAlert, got {:?}", other),
    }
}

#[test]
fn webhook_wrapper_accessors() {
    let w = WebHook(String::from("Hello, world!"), 4);
    assert_eq!(w.installation(), 4);
    let inner = w.into_inner();
    assert_eq!(inner, "Hello, world!");
}
