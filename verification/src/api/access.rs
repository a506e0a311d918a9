//! Who a request comes from, as the authentication middleware decides it, and
//! the labels its metrics are recorded under.
use vstd::prelude::*;
use vstd::string::{StringExecFns, StringSliceAdditionalSpecFns};
use crate::api::errors::ApiError;
use crate::auth::context::AuthContext;
use crate::auth::errors::AuthError;
use crate::auth::jwt::Claims;
use crate::auth::rbac::{role_named, Role};
use crate::digest::{hex_text, sha256_hex, sha256_of};
use crate::text::{has_prefix, starts_with, strip_prefix};

verus! {

/// Refuses a caller that did not authenticate.
pub fn ensure_authenticated(auth: &AuthContext) -> (r: Result<(), ApiError>)
    ensures
        r is Ok == auth.is_authenticated,
        r matches Err(e) ==> e == ApiError::Auth(AuthError::PermissionDenied),
{
    if auth.is_authenticated {
        Ok(())
    } else {
        Err(ApiError::Auth(AuthError::PermissionDenied))
    }
}

/// The caller's organization, or the nil id when it has none.
pub fn organization_of(auth: &AuthContext) -> (r: u128)
    ensures
        r == (match auth.org_id { Some(o) => o, None => 0 }),
{
    match auth.org_id {
        Some(o) => o,
        None => 0,
    }
}

/// The token of an `Authorization: Bearer <token>` header.
pub fn bearer_token(header: &str) -> (r: Option<String>)
    ensures
        match r {
            Some(t) => has_prefix(header@, "Bearer "@) && t@ == header@.subrange("Bearer "@.len() as int, header@.len() as int),
            None => !has_prefix(header@, "Bearer "@),
        },
{
    strip_prefix(header, "Bearer ")
}

/// The role a token's role claim names, the viewer when it names none.
pub open spec fn claimed_role(role: Seq<char>) -> Role {
    match role_named(role) {
        Some(r) => r,
        None => Role::Viewer,
    }
}

/// The context of a caller whose access token checked out.
pub fn context_from_claims(claims: Claims) -> (r: AuthContext)
    ensures
        r.user_id == claims.sub,
        r.email == claims.email,
        r.role == claimed_role(claims.role@),
        r.org_id == claims.org_id,
        r.is_authenticated,
{
    let role = match Role::from_str(claims.role.as_str()) {
        Some(r) => r,
        None => Role::Viewer,
    };
    AuthContext::new(claims.sub, claims.email, role, claims.org_id)
}

/// The context of a caller with a known API key: the nil user, the email
/// `api:<key name>`, the developer role and the key's organization.
pub fn api_key_context(key_name: &str, org_id: u128) -> (r: AuthContext)
    ensures
        r.user_id == 0,
        r.email@ == "api:"@ + key_name@,
        r.role == Role::Developer,
        r.org_id == Some(org_id),
        r.is_authenticated,
{
    let mut email = String::from_str("api:");
    email.append(key_name);
    AuthContext::new(0, email, Role::Developer, Some(org_id))
}

/// The stored form of an API key: the hexadecimal SHA-256 digest of the key.
pub fn api_key_hash(key: &str) -> (r: String)
    ensures
        r@ == hex_text(sha256_of(key.spec_bytes())),
{
    sha256_hex(key)
}

/// The context of a request: the API key's context when a key authenticated
/// it, else that of the checked access token's claims, else the anonymous one.
pub fn request_context(api_key: Option<AuthContext>, claims: Option<Claims>) -> (r: AuthContext)
    ensures
        match api_key {
            Some(c) => r == c,
            None => match claims {
                Some(cl) => r.user_id == cl.sub && r.email == cl.email && r.role == claimed_role(cl.role@)
                    && r.org_id == cl.org_id && r.is_authenticated,
                None => r.user_id == 0 && r.email@.len() == 0 && r.role == Role::Viewer && r.org_id is None
                    && !r.is_authenticated,
            },
        },
{
    match api_key {
        Some(c) => c,
        None => match claims {
            Some(cl) => context_from_claims(cl),
            None => AuthContext::anonymous(),
        },
    }
}

/// The path label of a request's metrics: `internal` for the metrics and
/// OpenAPI endpoints, the path itself otherwise.
pub open spec fn path_label(path: Seq<char>) -> Seq<char> {
    if has_prefix(path, "/metrics"@) || has_prefix(path, "/openapi.json"@) {
        "internal"@
    } else {
        path
    }
}

/// The path label of a request's metrics.
pub fn metrics_path_label(path: &str) -> (r: String)
    ensures
        r@ == path_label(path@),
{
    if starts_with(path, "/metrics") || starts_with(path, "/openapi.json") {
        String::from_str("internal")
    } else {
        String::from_str(path)
    }
}

/// Server errors (status 500 and up) are counted as errors.
pub fn counts_as_error(status: u16) -> (r: bool)
    ensures
        r == (status >= 500),
{
    status >= 500
}

} // verus!
