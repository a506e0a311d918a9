use astinel_backend::api::access::{
    api_key_context, api_key_hash, bearer_token, context_from_claims, counts_as_error, ensure_authenticated,
    metrics_path_label, organization_of, request_context,
};
use astinel_backend::api::accounts::{
    check_wallet_login, organization_name, organization_slug, wallet_display_name, wallet_organization_slug,
    wallet_user_email,
};
use astinel_backend::api::errors::ApiError;
use astinel_backend::api::dto::{ProjectResponse, UpdateProjectRequest};
use astinel_backend::api::handlers::{
    apply_project_update, branch_or_main, check_cancellable, language_or_rust, network_or_testnet, notification_limit,
};
use astinel_backend::api::slug::{project_slug, slugify};
use astinel_backend::auth::context::AuthContext;
use astinel_backend::auth::errors::AuthError;
use astinel_backend::auth::jwt::Claims;
use astinel_backend::auth::rbac::Role;
use astinel_backend::auth::wallet::build_challenge_message;
use astinel_backend::digest::sha256_hex;
use base64::Engine;
use ed25519_dalek::Signer;

#[test]
fn api_error_statuses_and_messages() {
    let cases = vec![
        (ApiError::Auth(AuthError::InvalidCredentials), 401, "Invalid credentials", "Authentication error: Invalid credentials"),
        (ApiError::NotFound("x".to_string()), 404, "x", "Not found: x"),
        (ApiError::BadRequest("b".to_string()), 400, "b", "Bad request: b"),
        (ApiError::Internal("i".to_string()), 500, "i", "Internal error: i"),
        (ApiError::Conflict("c".to_string()), 409, "c", "Conflict: c"),
        (ApiError::Forbidden, 403, "Forbidden", "Forbidden"),
    ];
    for (e, status, message, text) in cases {
        let (s, m) = e.status_and_message();
        assert_eq!(s, status);
        assert_eq!(m, message);
        assert_eq!(e.to_string(), text);
    }
    let from: ApiError = AuthError::PermissionDenied.into();
    assert!(matches!(from, ApiError::Auth(AuthError::PermissionDenied)));
}

#[test]
fn slugs_of_names() {
    assert_eq!(slugify("Hello World"), "hello-world");
    assert_eq!(slugify("  --Ünïcode Name!--  "), "ünïcode-name");
    assert_eq!(slugify("!!!"), "user");
    assert_eq!(slugify(""), "user");
    assert_eq!(slugify("a_b c"), "a_b-c");
    assert_eq!(project_slug("My Project Name"), "my-project-name");
}

#[test]
fn slugs_never_start_or_end_with_dash() {
    for name in ["-x-", "  ", "--", "A - B", "é é"] {
        let s = slugify(name);
        assert!(!s.is_empty());
        assert!(!s.starts_with('-') && !s.ends_with('-'));
        assert!(!s.contains(' '));
    }
}

#[test]
fn request_contexts() {
    let anon = AuthContext::anonymous();
    assert!(matches!(ensure_authenticated(&anon), Err(ApiError::Auth(AuthError::PermissionDenied))));
    assert_eq!(organization_of(&anon), 0);
    assert_eq!(bearer_token("Bearer abc.def").as_deref(), Some("abc.def"));
    assert_eq!(bearer_token("Basic abc"), None);
    assert_eq!(bearer_token("Bearer"), None);
    let claims = Claims {
        sub: 11,
        email: "u@x".to_string(),
        role: "nonsense".to_string(),
        org_id: Some(3),
        exp: 0,
        iat: 0,
        jti: "j".to_string(),
    };
    let ctx = context_from_claims(claims.clone());
    assert_eq!(ctx.role, Role::Viewer);
    assert!(ensure_authenticated(&ctx).is_ok());
    assert_eq!(organization_of(&ctx), 3);
    let key = api_key_context("ci", 42);
    assert_eq!(key.email, "api:ci");
    assert_eq!(key.role, Role::Developer);
    assert_eq!(request_context(Some(key.clone()), Some(claims.clone())).email, "api:ci");
    assert_eq!(request_context(None, Some(claims)).user_id, 11);
    assert!(!request_context(None, None).is_authenticated);
}

#[test]
fn metrics_labels() {
    assert_eq!(metrics_path_label("/metrics"), "internal");
    assert_eq!(metrics_path_label("/openapi.json"), "internal");
    assert_eq!(metrics_path_label("/api/v1/scans"), "/api/v1/scans");
    assert!(counts_as_error(500) && counts_as_error(503) && !counts_as_error(404));
}

#[test]
fn digests() {
    assert_eq!(
        sha256_hex("abc"),
        "ba7816bf8f01cfea414140de5dae2223b00361a396177a9cb410ff61f20015ad"
    );
    assert_eq!(api_key_hash("abc"), sha256_hex("abc"));
    assert_eq!(
        sha256_hex(""),
        "e3b0c44298fc1c149afbf4c8996fb92427ae41e4649b934ca495991b7852b855"
    );
}

#[test]
fn handler_rules() {
    assert!(check_cancellable("running").is_ok());
    for s in ["completed", "failed", "cancelled"] {
        match check_cancellable(s) {
            Err(ApiError::BadRequest(m)) => assert_eq!(m, "Scan already finished"),
            _ => panic!("expected refusal"),
        }
    }
    assert_eq!(notification_limit(None), 50);
    assert_eq!(notification_limit(Some(10)), 10);
    assert_eq!(notification_limit(Some(500)), 200);
    assert_eq!(branch_or_main(None), "main");
    assert_eq!(branch_or_main(Some("dev".to_string())), "dev");
    assert_eq!(network_or_testnet(None), "testnet");
    assert_eq!(language_or_rust(None), "rust");
}

#[test]
fn account_names() {
    let id: u128 = 0x1234abcd_0000_0000_0000_000000000001;
    assert_eq!(organization_slug("Jane Doe", id), "jane-doe-1234abcd");
    assert_eq!(wallet_organization_slug(id), "wallet-1234abcd");
    assert_eq!(organization_name("Jane"), "Jane's Organization");
    let pk = "GABCDEFGHIJKLMNOPQRSTUVWXYZ";
    assert_eq!(wallet_user_email(pk), "wallet-GABCDEFGHIJK@astinel.io");
    assert_eq!(wallet_display_name(pk), "Wallet GABCDEFG");
}

#[test]
fn wallet_login_checks() {
    let mut rng = rand::thread_rng();
    let sk = ed25519_dalek::SigningKey::generate(&mut rng);
    let pk = stellar_strkey::ed25519::PublicKey(sk.verifying_key().to_bytes()).to_string();
    let nonce = "n0nce".to_string();
    let message = build_challenge_message(&nonce);
    let sig = sk.sign(message.as_bytes());
    let encoded = base64::engine::general_purpose::STANDARD.encode(sig.to_bytes());
    assert!(check_wallet_login(&pk, Some(nonce.clone()), &encoded).is_ok());
    assert!(matches!(
        check_wallet_login(&pk, None, &encoded),
        Err(ApiError::Auth(AuthError::InvalidCredentials))
    ));
    match check_wallet_login(&pk, Some(nonce.clone()), "not base64!!") {
        Err(ApiError::BadRequest(m)) => assert_eq!(m, "Invalid base64 signature"),
        _ => panic!("expected bad request"),
    }
    assert!(matches!(
        check_wallet_login(&pk, Some("other".to_string()), &encoded),
        Err(ApiError::Auth(AuthError::InvalidCredentials))
    ));
}

fn sample_project() -> ProjectResponse {
    ProjectResponse {
        id: "p1".to_string(),
        name: "Old".to_string(),
        slug: "old".to_string(),
        description: None,
        repository_url: Some("https://example.com/old".to_string()),
        default_branch: "main".to_string(),
        language: "rust".to_string(),
        created_at: "c".to_string(),
        updated_at: "u".to_string(),
    }
}

#[test]
fn project_update_replaces_given_fields() {
    let req = UpdateProjectRequest {
        name: Some("My New Project".to_string()),
        description: Some("desc".to_string()),
        repository_url: None,
        language: None,
        default_branch: Some("dev".to_string()),
    };
    let p = apply_project_update(sample_project(), req);
    assert_eq!(p.name, "My New Project");
    assert_eq!(p.slug, "my-new-project");
    assert_eq!(p.description, Some("desc".to_string()));
    assert_eq!(p.repository_url, Some("https://example.com/old".to_string()));
    assert_eq!(p.language, "rust");
    assert_eq!(p.default_branch, "dev");
    assert_eq!(p.id, "p1");
}

#[test]
fn empty_project_update_keeps_everything() {
    let req = UpdateProjectRequest { name: None, description: None, repository_url: None, language: None, default_branch: None };
    let p = apply_project_update(sample_project(), req);
    assert_eq!(p.name, "Old");
    assert_eq!(p.slug, "old");
    assert_eq!(p.description, None);
}
