//! Authentication and access control: roles and permissions, request
//! contexts, token claims, password hashing and Stellar wallet sign-in.
pub mod rbac;
pub mod errors;
pub mod context;
pub mod jwt;
pub mod password;
pub mod wallet;
pub mod nonce;
pub mod laws;
