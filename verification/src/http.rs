//! The HTTP client type that the RPC and AI clients hold.
use vstd::prelude::*;

verus! {

#[verifier::external_type_specification]
#[verifier::external_body]
pub struct ExHttpClient(reqwest::Client);

/// A fresh HTTP client (`reqwest::Client::new`). Nothing is stated of it.
#[verifier::external_body]
pub(crate) fn new_http_client() -> reqwest::Client {
    reqwest::Client::new()
}

} // verus!
