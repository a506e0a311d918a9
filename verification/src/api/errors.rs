//! Errors of the API and the responses they turn into.
use vstd::prelude::*;
use vstd::string::StringExecFns;
use crate::auth::errors::{auth_error_text, AuthError};

verus! {

/// Why an API request failed.
#[derive(Debug, Clone)]
pub enum ApiError {
    Auth(AuthError),
    NotFound(String),
    BadRequest(String),
    Internal(String),
    Conflict(String),
    Forbidden,
}

impl From<AuthError> for ApiError {
    fn from(e: AuthError) -> (r: ApiError) {
        ApiError::Auth(e)
    }
}

impl vstd::std_specs::convert::FromSpecImpl<AuthError> for ApiError {
    open spec fn obeys_from_spec() -> bool {
        true
    }

    open spec fn from_spec(e: AuthError) -> ApiError {
        ApiError::Auth(e)
    }
}

/// The message of an API error.
pub open spec fn api_error_text(e: ApiError) -> Seq<char> {
    match e {
        ApiError::Auth(a) => "Authentication error: "@ + auth_error_text(a),
        ApiError::NotFound(m) => "Not found: "@ + m@,
        ApiError::BadRequest(m) => "Bad request: "@ + m@,
        ApiError::Internal(m) => "Internal error: "@ + m@,
        ApiError::Conflict(m) => "Conflict: "@ + m@,
        ApiError::Forbidden => "Forbidden"@,
    }
}

/// The HTTP status of the response to an error.
pub open spec fn status_of(e: ApiError) -> u16 {
    match e {
        ApiError::Auth(_) => 401,
        ApiError::NotFound(_) => 404,
        ApiError::BadRequest(_) => 400,
        ApiError::Internal(_) => 500,
        ApiError::Conflict(_) => 409,
        ApiError::Forbidden => 403,
    }
}

/// The message the response to an error carries: the authentication error's
/// own message, the text of the other errors, or `Forbidden`.
pub open spec fn response_text(e: ApiError) -> Seq<char> {
    match e {
        ApiError::Auth(a) => auth_error_text(a),
        ApiError::NotFound(m) => m@,
        ApiError::BadRequest(m) => m@,
        ApiError::Internal(m) => m@,
        ApiError::Conflict(m) => m@,
        ApiError::Forbidden => "Forbidden"@,
    }
}

impl ApiError {
    /// The message of the error.
    pub fn to_string(&self) -> (r: String)
        ensures
            r@ == api_error_text(*self),
    {
        let (prefix, rest) = match self {
            ApiError::Auth(a) => ("Authentication error: ", a.to_string()),
            ApiError::NotFound(m) => ("Not found: ", m.clone()),
            ApiError::BadRequest(m) => ("Bad request: ", m.clone()),
            ApiError::Internal(m) => ("Internal error: ", m.clone()),
            ApiError::Conflict(m) => ("Conflict: ", m.clone()),
            ApiError::Forbidden => {
                return String::from_str("Forbidden");
            },
        };
        let mut r = String::from_str(prefix);
        r.append(rest.as_str());
        r
    }

    /// The status and message of the response to the error; the body of the
    /// response is `{"error": {"code": <status>, "message": <message>}}`.
    pub fn status_and_message(&self) -> (r: (u16, String))
        ensures
            r.0 == status_of(*self),
            r.1@ == response_text(*self),
    {
        match self {
            ApiError::Auth(a) => (401, a.to_string()),
            ApiError::NotFound(m) => (404, m.clone()),
            ApiError::BadRequest(m) => (400, m.clone()),
            ApiError::Internal(m) => (500, m.clone()),
            ApiError::Conflict(m) => (409, m.clone()),
            ApiError::Forbidden => (403, String::from_str("Forbidden")),
        }
    }
}

} // verus!
