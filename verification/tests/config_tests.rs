//! Configuration building and webhook signature verification.

use octoapp::OctoAppConfig;
use octoapp::OctoAppError;

#[test]
fn test_signature_verification() {
    let config = OctoAppConfig::init()
        .app_id(12345)
        .client_id(String::from("client_id"))
        .client_secret(String::from("client_secret"))
        .webhook_secret(String::from("ThisIsASecret"))
        .build()
        .expect("Failed to build config");

    let data = b"Hello, World!";

    assert!(config.webhook_signature_verification(
        data,
        "sha256=8f0f4676fdd5091bb3d5eb610a35434412970971ada809fa3fb3680d5dfff024".to_string(),
    ));
}

fn config_with_secret(secret: &str) -> OctoAppConfig {
    OctoAppConfig::init()
        .app_id(7)
        .webhook_secret(String::from(secret))
        .build()
        .unwrap()
}

#[test]
fn signature_create_then_verify() {
    let config = config_with_secret("a fine long secret");
    let body = b"{\"zen\":\"Design for failure.\",\"hook_id\":1}";
    let sig = config.webhook_signature_create(body).unwrap();
    assert!(sig.starts_with("sha256="));
    assert!(config.webhook_signature_verification(body, sig));
}

#[test]
fn signature_rejects_tampered_body() {
    let config = config_with_secret("a fine long secret");
    let sig = config.webhook_signature_create(b"payload-one").unwrap();
    assert!(!config.webhook_signature_verification(b"payload-two", sig.clone()));
    // a single flipped byte in the body must fail too
    assert!(!config.webhook_signature_verification(b"payload-onf", sig));
}

#[test]
fn signature_rejects_other_secret() {
    let signer = config_with_secret("the secret of one app");
    let verifier = config_with_secret("the secret of another");
    let sig = signer.webhook_signature_create(b"same body").unwrap();
    assert!(!verifier.webhook_signature_verification(b"same body", sig));
}

#[test]
fn signature_requires_prefix() {
    let config = config_with_secret("a fine long secret");
    let sig = config.webhook_signature_create(b"body").unwrap();
    let bare = sig.strip_prefix("sha256=").unwrap().to_string();
    assert!(!config.webhook_signature_verification(b"body", bare));
    assert!(!config.webhook_signature_verification(b"body", String::from("md5=abcdef")));
    assert!(!config.webhook_signature_verification(b"body", String::new()));
}

#[test]
fn verification_without_secret_is_false() {
    let config = OctoAppConfig::init().app_id(7).build().unwrap();
    let other = config_with_secret("a fine long secret");
    let sig = other.webhook_signature_create(b"body").unwrap();
    assert!(!config.webhook_signature_verification(b"body", sig));
}

#[test]
fn secret_shorter_than_eight_bytes_is_rejected() {
    let r = OctoAppConfig::init()
        .app_id(7)
        .webhook_secret(String::from("seven77"))
        .build();
    match r {
        Err(OctoAppError::WebhookSecretError(len)) => assert_eq!(len, 7),
        Err(e) => panic!("expected WebhookSecretError, got {:?}", e),
        Ok(_) => panic!("expected WebhookSecretError, got a configuration"),
    }
}

#[test]
fn short_but_legal_secret_is_flagged() {
    let config = config_with_secret("8bytes!!");
    assert!(config.webhook_secret_flagged());
    let config = config_with_secret("fifteen-bytes-x");
    assert!(config.webhook_secret_flagged());
}

#[test]
fn long_secret_is_not_flagged() {
    let config = config_with_secret("sixteen-bytes-xy");
    assert!(!config.webhook_secret_flagged());
}

#[test]
fn app_id_alone_builds_a_minimal_credential() {
    let config = OctoAppConfig::init().app_id(12345).build().unwrap();
    assert_eq!(config.app_id(), 12345);
    assert!(config.app_name().is_none());
    assert!(config.client_id().is_none());
    assert!(config.client_secret().is_none());
    assert!(config.client_key().is_none());
    assert!(config.webhook_secret().is_none());
    // nothing except holding the id works: signing-dependent operations fail
    match config.octocrab() {
        Err(OctoAppError::MissingField(f)) => assert_eq!(f, "Client Key"),
        other => panic!("expected MissingField, got {:?}", other),
    }
    match config.webhook_signature_create(b"x") {
        Err(OctoAppError::MissingField(f)) => assert_eq!(f, "Webhook Secret"),
        other => panic!("expected MissingField, got {:?}", other),
    }
}

#[test]
fn missing_app_id_fails_by_name() {
    let r = OctoAppConfig::init()
        .app_name(String::from("My App"))
        .build();
    match r {
        Err(OctoAppError::MissingField(f)) => assert_eq!(f, "AppID"),
        Err(e) => panic!("expected MissingField, got {:?}", e),
        Ok(_) => panic!("expected MissingField, got a configuration"),
    }
}

#[test]
fn key_path_alone_fails_loudly() {
    let r = OctoAppConfig::init()
        .app_id(7)
        .client_key_path(String::from("/etc/octoapp/key.pem"))
        .build();
    match r {
        Err(OctoAppError::MissingField(f)) => assert_eq!(f, "Client Key Data"),
        Err(e) => panic!("expected MissingField, got {:?}", e),
        Ok(_) => panic!("expected MissingField, got a configuration"),
    }
}

#[test]
fn malformed_inline_key_fails_as_jwt_error() {
    let r = OctoAppConfig::init()
        .app_id(7)
        .client_key(String::from("not a pem at all"))
        .build();
    match r {
        Err(OctoAppError::JsonWebTokenError(_)) => {}
        Err(e) => panic!("expected JsonWebTokenError, got {:?}", e),
        Ok(_) => panic!("expected JsonWebTokenError, got a configuration"),
    }
}

#[test]
fn display_shows_name_and_id_only() {
    let config = OctoAppConfig::init()
        .app_name(String::from("My App"))
        .app_id(12345)
        .client_secret(String::from("topsecretvalue"))
        .webhook_secret(String::from("hushhushhush"))
        .build()
        .unwrap();
    let shown = config.display();
    assert_eq!(
        shown,
        "OctoAppConfig { app_name: Some(\"My App\"), app_id: 12345 }"
    );
    assert!(!shown.contains("topsecretvalue"));
    assert!(!shown.contains("hushhushhush"));
}

#[test]
fn builder_setters_fill_each_field() {
    let b = OctoAppConfig::init()
        .app_name(String::from("n"))
        .app_id(9)
        .client_id(String::from("ci"))
        .client_secret(String::from("cs"))
        .webhook_secret(String::from("longenoughsecret"));
    let config = b.build().unwrap();
    assert_eq!(config.app_name().unwrap(), "n");
    assert_eq!(config.app_id(), 9);
    assert_eq!(config.client_id().unwrap(), "ci");
    assert_eq!(config.client_secret().unwrap(), "cs");
    assert_eq!(config.webhook_secret().unwrap(), "longenoughsecret");
}
