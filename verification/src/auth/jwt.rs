//! Access and refresh tokens: the claims they carry and how long they last.
//! Signing and checking the tokens is the caller's work (it serializes the
//! claims); the clock reading and the token id are handed in.
use vstd::prelude::*;
use vstd::string::StringExecFns;

verus! {

/// Seconds an access token lasts (one hour).
pub const ACCESS_TTL_SECS: i64 = 3600;

/// Seconds a refresh token lasts (thirty days).
pub const REFRESH_TTL_SECS: i64 = 2592000;

/// The claims of a token.
#[derive(Debug, Clone)]
pub struct Claims {
    /// The user id.
    pub sub: u128,
    pub email: String,
    pub role: String,
    pub org_id: Option<u128>,
    /// Expiry, in seconds since the epoch.
    pub exp: usize,
    /// Issue time, in seconds since the epoch.
    pub iat: usize,
    /// The token id.
    pub jti: String,
}

/// A pair of signed tokens.
#[derive(Debug, Clone)]
pub struct AuthTokens {
    pub access_token: String,
    pub refresh_token: String,
    /// Seconds until the access token expires.
    pub expires_in: i64,
}

/// Issues and checks tokens with two secrets.
pub struct JwtService {
    access_secret: String,
    refresh_secret: String,
    access_ttl_secs: i64,
    refresh_ttl_secs: i64,
}

/// `c` carries the given identity, was issued at `now` with id `jti`, and
/// expires `ttl` seconds later.
pub open spec fn claims_for(
    c: Claims,
    user_id: u128,
    email: Seq<char>,
    role: Seq<char>,
    org_id: Option<u128>,
    now: usize,
    jti: Seq<char>,
    ttl: int,
) -> bool {
    &&& c.sub == user_id
    &&& c.email@ == email
    &&& c.role@ == role
    &&& c.org_id == org_id
    &&& c.iat == now
    &&& c.exp == now + ttl
    &&& c.jti@ == jti
}

impl JwtService {
    /// Tokens always last the fixed lifetimes.
    #[verifier::type_invariant]
    closed spec fn lifetimes_fixed(&self) -> bool {
        self.access_ttl_secs == ACCESS_TTL_SECS && self.refresh_ttl_secs == REFRESH_TTL_SECS
    }

    /// The secret that signs access tokens.
    pub closed spec fn spec_access_secret(&self) -> Seq<char> {
        self.access_secret@
    }

    /// The secret that signs refresh tokens.
    pub closed spec fn spec_refresh_secret(&self) -> Seq<char> {
        self.refresh_secret@
    }

    /// A service with the given secrets; access tokens last an hour, refresh
    /// tokens thirty days.
    pub fn new(access_secret: String, refresh_secret: String) -> (r: JwtService)
        ensures
            r.spec_access_secret() == access_secret@,
            r.spec_refresh_secret() == refresh_secret@,
    {
        JwtService {
            access_secret,
            refresh_secret,
            access_ttl_secs: ACCESS_TTL_SECS,
            refresh_ttl_secs: REFRESH_TTL_SECS,
        }
    }

    /// The secret that signs access tokens.
    pub fn access_secret(&self) -> (r: &str)
        ensures
            r@ == self.spec_access_secret(),
    {
        self.access_secret.as_str()
    }

    /// The secret that signs refresh tokens.
    pub fn refresh_secret(&self) -> (r: &str)
        ensures
            r@ == self.spec_refresh_secret(),
    {
        self.refresh_secret.as_str()
    }

    /// The claims of a new pair of tokens issued at `now` with id `jti`: the
    /// access claims expire after the access lifetime, the refresh claims,
    /// otherwise the same, after the refresh lifetime.
    pub fn issue_claims(
        &self,
        user_id: u128,
        email: &str,
        role: &str,
        org_id: Option<u128>,
        now: usize,
        jti: String,
    ) -> (r: (Claims, Claims))
        requires
            now + REFRESH_TTL_SECS <= usize::MAX,
        ensures
            claims_for(r.0, user_id, email@, role@, org_id, now, jti@, ACCESS_TTL_SECS as int),
            claims_for(r.1, user_id, email@, role@, org_id, now, jti@, REFRESH_TTL_SECS as int),
    {
        proof {
            use_type_invariant(self);
        }
        let access = Claims {
            sub: user_id,
            email: String::from_str(email),
            role: String::from_str(role),
            org_id,
            exp: now + self.access_ttl_secs as usize,
            iat: now,
            jti,
        };
        let refresh = Claims {
            sub: access.sub,
            email: access.email.clone(),
            role: access.role.clone(),
            org_id: access.org_id,
            exp: now + self.refresh_ttl_secs as usize,
            iat: access.iat,
            jti: access.jti.clone(),
        };
        (access, refresh)
    }

    /// The pair of signed tokens, with the access lifetime as `expires_in`.
    pub fn tokens(&self, access_token: String, refresh_token: String) -> (r: AuthTokens)
        ensures
            r.access_token == access_token,
            r.refresh_token == refresh_token,
            r.expires_in == ACCESS_TTL_SECS,
    {
        proof {
            use_type_invariant(self);
        }
        AuthTokens { access_token, refresh_token, expires_in: self.access_ttl_secs }
    }
}

} // verus!
