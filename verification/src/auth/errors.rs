//! Why authentication failed.
use vstd::prelude::*;
use vstd::string::StringExecFns;

verus! {

/// Why a request could not be authenticated or authorized.
#[derive(Debug, Clone)]
pub enum AuthError {
    InvalidCredentials,
    TokenExpired,
    TokenInvalid,
    RefreshExpired,
    PermissionDenied,
    UserNotFound,
    EmailAlreadyExists,
    PasswordError(String),
    TokenError(String),
}

/// The message of an authentication error.
pub open spec fn auth_error_text(e: AuthError) -> Seq<char> {
    match e {
        AuthError::InvalidCredentials => "Invalid credentials"@,
        AuthError::TokenExpired => "Token expired"@,
        AuthError::TokenInvalid => "Token invalid"@,
        AuthError::RefreshExpired => "Refresh token expired"@,
        AuthError::PermissionDenied => "Permission denied"@,
        AuthError::UserNotFound => "User not found"@,
        AuthError::EmailAlreadyExists => "Email already exists"@,
        AuthError::PasswordError(m) => "Password hashing error: "@ + m@,
        AuthError::TokenError(m) => "Token creation error: "@ + m@,
    }
}

impl AuthError {
    /// The message of the error.
    pub fn to_string(&self) -> (r: String)
        ensures
            r@ == auth_error_text(*self),
    {
        match self {
            AuthError::InvalidCredentials => String::from_str("Invalid credentials"),
            AuthError::TokenExpired => String::from_str("Token expired"),
            AuthError::TokenInvalid => String::from_str("Token invalid"),
            AuthError::RefreshExpired => String::from_str("Refresh token expired"),
            AuthError::PermissionDenied => String::from_str("Permission denied"),
            AuthError::UserNotFound => String::from_str("User not found"),
            AuthError::EmailAlreadyExists => String::from_str("Email already exists"),
            AuthError::PasswordError(m) => {
                let mut r = String::from_str("Password hashing error: ");
                r.append(m.as_str());
                r
            },
            AuthError::TokenError(m) => {
                let mut r = String::from_str("Token creation error: ");
                r.append(m.as_str());
                r
            },
        }
    }

    /// A copy of the error.
    pub fn copy(&self) -> (r: AuthError)
        ensures
            r == *self,
    {
        match self {
            AuthError::InvalidCredentials => AuthError::InvalidCredentials,
            AuthError::TokenExpired => AuthError::TokenExpired,
            AuthError::TokenInvalid => AuthError::TokenInvalid,
            AuthError::RefreshExpired => AuthError::RefreshExpired,
            AuthError::PermissionDenied => AuthError::PermissionDenied,
            AuthError::UserNotFound => AuthError::UserNotFound,
            AuthError::EmailAlreadyExists => AuthError::EmailAlreadyExists,
            AuthError::PasswordError(m) => AuthError::PasswordError(m.clone()),
            AuthError::TokenError(m) => AuthError::TokenError(m.clone()),
        }
    }
}

} // verus!
