use astinel_backend::auth::context::AuthContext;
use astinel_backend::auth::errors::AuthError;
use astinel_backend::auth::jwt::{JwtService, ACCESS_TTL_SECS, REFRESH_TTL_SECS};
use astinel_backend::auth::nonce::{NonceStore, NONCE_LENGTH, NONCE_TTL_MS};
use astinel_backend::auth::password::PasswordService;
use astinel_backend::auth::rbac::{Permission, Role};
use astinel_backend::auth::wallet::{build_challenge_message, stellar_pk_to_bytes, verify_signature};
use ed25519_dalek::Signer;

fn encode_pk(pk: &ed25519_dalek::VerifyingKey) -> String {
    stellar_strkey::ed25519::PublicKey(pk.to_bytes()).to_string().as_str().to_string()
}

#[test]
fn test_pk_roundtrip() {
    let mut rng = rand::thread_rng();
    let sk = ed25519_dalek::SigningKey::generate(&mut rng);
    let pk = sk.verifying_key();
    let encoded = encode_pk(&pk);
    assert!(encoded.starts_with("G"));
    let decoded = stellar_pk_to_bytes(&encoded).unwrap();
    assert_eq!(pk.to_bytes(), decoded);
}

#[test]
fn test_sign_and_verify() {
    let mut rng = rand::thread_rng();
    let sk = ed25519_dalek::SigningKey::generate(&mut rng);
    let pk = sk.verifying_key();
    let encoded = encode_pk(&pk);
    let message = b"test message";
    let signature = sk.sign(message);
    let result = verify_signature(&encoded, message, &signature.to_bytes());
    assert!(result.is_ok());
}

#[test]
fn test_verify_wrong_key() {
    let mut rng = rand::thread_rng();
    let sk = ed25519_dalek::SigningKey::generate(&mut rng);
    let pk = sk.verifying_key();
    let encoded = encode_pk(&pk);
    let message = b"test message";
    let other_sk = ed25519_dalek::SigningKey::generate(&mut rng);
    let signature = other_sk.sign(message);
    let result = verify_signature(&encoded, message, &signature.to_bytes());
    assert!(result.is_err());
    assert_eq!(result.unwrap_err(), "Signature verification failed");
}

#[test]
fn test_invalid_pk() {
    let result = stellar_pk_to_bytes("GABC123");
    assert!(result.is_err());
    assert_eq!(result.unwrap_err(), "Invalid Stellar public key: the strkey is invalid");
}

#[test]
fn other_strkey_kinds_are_not_public_keys() {
    let contract = stellar_strkey::Contract([7u8; 32]).to_string();
    assert_eq!(stellar_pk_to_bytes(&contract).unwrap_err(), "Not a Stellar public key");
}

#[test]
fn short_signature_is_rejected() {
    let mut rng = rand::thread_rng();
    let sk = ed25519_dalek::SigningKey::generate(&mut rng);
    let encoded = encode_pk(&sk.verifying_key());
    let err = verify_signature(&encoded, b"m", &[1, 2, 3]).unwrap_err();
    assert_eq!(err, "Invalid signature: signature error");
}

#[test]
fn challenge_message_text() {
    assert_eq!(build_challenge_message("abc"), "Astinel login: abc");
}

#[test]
fn test_nonce_store() {
    let mut store = NonceStore::new();
    let pk = "GA7QNFM7J2Z3M6Q3KQ6Y7R6XYZ";
    let nonce = store.generate(pk, 1_000);
    assert_eq!(nonce.len(), 32);
    assert_eq!(nonce.len(), NONCE_LENGTH);
    assert!(nonce.chars().all(|c| c.is_ascii_alphanumeric()));
    let consumed = store.consume(pk, 2_000);
    assert_eq!(consumed, Some(nonce));
    let again = store.consume(pk, 2_000);
    assert_eq!(again, None);
}

#[test]
fn expired_nonce_is_refused_and_dropped() {
    let mut store = NonceStore::new();
    store.generate("k1", 0);
    let n2 = store.generate("k2", 0);
    assert_eq!(store.consume("k1", NONCE_TTL_MS + 1), None);
    assert_eq!(store.consume("k1", 0), None);
    assert_eq!(store.consume("k2", NONCE_TTL_MS), Some(n2));
}

#[test]
fn a_new_nonce_replaces_the_old_one() {
    let mut store = NonceStore::new();
    let first = store.generate("k", 0);
    let second = store.generate("k", 10);
    assert_eq!(store.consume("k", 10), Some(second.clone()));
    assert_ne!(first.len(), 0);
}

#[test]
fn roles_from_names() {
    assert_eq!(Role::from_str("owner"), Some(Role::Owner));
    assert_eq!(Role::from_str("ADMIN"), Some(Role::Admin));
    assert_eq!(Role::from_str("Developer"), Some(Role::Developer));
    assert_eq!(Role::from_str("viewer"), Some(Role::Viewer));
    assert_eq!(Role::from_str("guest"), None);
    for r in [Role::Owner, Role::Admin, Role::Developer, Role::Viewer] {
        assert_eq!(Role::from_str(r.as_str()), Some(r));
        assert!(r.can_read());
    }
    assert!(Role::Admin.can_administer() && !Role::Developer.can_administer());
    assert!(Role::Developer.can_write() && !Role::Viewer.can_write());
}

#[test]
fn permissions_by_role() {
    assert_eq!(Permission::requires_role(Role::Owner).len(), 12);
    assert_eq!(Permission::requires_role(Role::Admin).len(), 9);
    assert_eq!(Permission::requires_role(Role::Developer).len(), 6);
    assert_eq!(
        Permission::requires_role(Role::Viewer),
        vec![Permission::ViewScan, Permission::ViewReport, Permission::ViewFindings]
    );
    assert!(Permission::has_permission(Role::Owner, &Permission::Administer));
    assert!(!Permission::has_permission(Role::Admin, &Permission::Administer));
    assert!(Permission::has_permission(Role::Admin, &Permission::DeleteProject));
    assert!(!Permission::has_permission(Role::Developer, &Permission::DeleteProject));
    assert!(Permission::has_permission(Role::Developer, &Permission::TriggerScan));
    assert!(!Permission::has_permission(Role::Viewer, &Permission::TriggerScan));
}

#[test]
fn higher_roles_hold_lower_roles_permissions() {
    let order = [Role::Viewer, Role::Developer, Role::Admin, Role::Owner];
    for i in 0..order.len() {
        for j in i..order.len() {
            for p in Permission::requires_role(order[i]) {
                assert!(Permission::has_permission(order[j], &p));
            }
        }
    }
}

#[test]
fn contexts() {
    let anon = AuthContext::anonymous();
    assert!(!anon.is_authenticated);
    assert_eq!(anon.user_id, 0);
    assert!(anon.has_permission(&Permission::ViewScan));
    assert!(!anon.has_permission(&Permission::CreateProject));
    let ctx = AuthContext::new(7, "a@b.c".to_string(), Role::Developer, Some(9));
    assert!(ctx.is_authenticated);
    assert!(ctx.has_permission(&Permission::CreateProject));
    assert_eq!(ctx.org_id, Some(9));
}

#[test]
fn token_claims_and_lifetimes() {
    let svc = JwtService::new("a".to_string(), "r".to_string());
    let (access, refresh) = svc.issue_claims(5, "e@x", "user", None, 1_000, "jti-1".to_string());
    assert_eq!(access.exp, 1_000 + 3600);
    assert_eq!(refresh.exp, 1_000 + 2_592_000);
    assert_eq!(access.iat, 1_000);
    assert_eq!(refresh.jti, "jti-1");
    assert_eq!(access.sub, 5);
    assert_eq!(svc.access_secret(), "a");
    assert_eq!(svc.refresh_secret(), "r");
    let tokens = svc.tokens("t1".to_string(), "t2".to_string());
    assert_eq!(tokens.expires_in, 3600);
    assert_eq!(ACCESS_TTL_SECS, 3600);
    assert_eq!(REFRESH_TTL_SECS, 2_592_000);
}

#[test]
fn password_hash_round_trip() {
    let h = PasswordService::hash("s3cret").unwrap();
    assert!(h.starts_with("$argon2id$v=19$"));
    assert_eq!(PasswordService::verify("s3cret", &h).unwrap(), true);
    assert_eq!(PasswordService::verify("wrong", &h).unwrap(), false);
    assert!(PasswordService::verify("s3cret", "").is_err());
    assert!(PasswordService::verify("s3cret", "not a hash").is_err());
}

#[test]
fn auth_error_messages() {
    assert_eq!(AuthError::InvalidCredentials.to_string(), "Invalid credentials");
    assert_eq!(AuthError::RefreshExpired.to_string(), "Refresh token expired");
    assert_eq!(AuthError::PasswordError("x".to_string()).to_string(), "Password hashing error: x");
    assert_eq!(AuthError::TokenError("y".to_string()).to_string(), "Token creation error: y");
}

#[test]
fn key_bytes_off_the_curve_are_rejected() {
    let mut seen = false;
    for k in 0u8..64 {
        let mut bytes = [0u8; 32];
        bytes[0] = k;
        let address = stellar_strkey::ed25519::PublicKey(bytes).to_string();
        if let Err(m) = verify_signature(&address, b"m", &[0u8; 64]) {
            if m == "Invalid public key bytes: signature error: Cannot decompress Edwards point" {
                seen = true;
            }
        }
    }
    assert!(seen);
}
