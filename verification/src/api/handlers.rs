//! Checks and defaults that the API handlers apply to their requests.
use vstd::prelude::*;
use vstd::string::StringExecFns;
use crate::api::errors::ApiError;
use crate::api::dto::{ProjectResponse, UpdateProjectRequest};
use crate::api::slug::{dashed, project_slug, unicode_lowercase};
use crate::text::str_eq;

verus! {

/// A scan in this status has finished and cannot be cancelled.
pub open spec fn is_finished(status: Seq<char>) -> bool {
    status == "completed"@ || status == "failed"@ || status == "cancelled"@
}

/// Whether a scan in this status has finished.
pub fn scan_finished(status: &str) -> (r: bool)
    ensures
        r == is_finished(status@),
{
    str_eq(status, "completed") || str_eq(status, "failed") || str_eq(status, "cancelled")
}

/// A scan may be cancelled unless it has finished.
pub fn check_cancellable(status: &str) -> (r: Result<(), ApiError>)
    ensures
        r is Ok == !is_finished(status@),
        r matches Err(e) ==> e matches ApiError::BadRequest(m) && m@ == "Scan already finished"@,
{
    if scan_finished(status) {
        Err(ApiError::BadRequest(String::from_str("Scan already finished")))
    } else {
        Ok(())
    }
}

/// How many notifications a listing returns: 50 unless asked, never more than 200.
pub fn notification_limit(limit: Option<i64>) -> (r: i64)
    ensures
        r == (match limit {
            Some(l) => if l < 200 { l } else { 200 },
            None => 50,
        }),
{
    let l = match limit {
        Some(l) => l,
        None => 50,
    };
    if l < 200 { l } else { 200 }
}

/// A value, or a default text when it is absent.
pub open spec fn text_or(value: Option<String>, default: Seq<char>) -> Seq<char> {
    match value {
        Some(v) => v@,
        None => default,
    }
}

/// The branch a scan runs on: `main` unless one is given.
pub fn branch_or_main(branch: Option<String>) -> (r: String)
    ensures
        r@ == text_or(branch, "main"@),
{
    match branch {
        Some(b) => b,
        None => String::from_str("main"),
    }
}

/// The network of a contract request: `testnet` unless one is given.
pub fn network_or_testnet(network: Option<String>) -> (r: String)
    ensures
        r@ == text_or(network, "testnet"@),
{
    match network {
        Some(n) => n,
        None => String::from_str("testnet"),
    }
}

/// The language of a new project: `rust` unless one is given.
pub fn language_or_rust(language: Option<String>) -> (r: String)
    ensures
        r@ == text_or(language, "rust"@),
{
    match language {
        Some(l) => l,
        None => String::from_str("rust"),
    }
}

/// A value replaced by the one a request gives, if it gives one.
pub open spec fn replaced<T>(current: T, given: Option<T>) -> T {
    match given {
        Some(v) => v,
        None => current,
    }
}

/// A project after an update: each field the request gives replaces the
/// current one (a description or repository becomes present), and a new
/// name brings its slug, the name lower-cased with spaces turned into `-`.
pub fn apply_project_update(current: ProjectResponse, req: UpdateProjectRequest) -> (r: ProjectResponse)
    ensures
        r.id == current.id,
        r.created_at == current.created_at,
        r.updated_at == current.updated_at,
        match req.name {
            Some(n) => r.name == n && r.slug@ == dashed(unicode_lowercase(n@)),
            None => r.name == current.name && r.slug == current.slug,
        },
        r.description == (match req.description { Some(d) => Some(d), None => current.description }),
        r.repository_url == (match req.repository_url { Some(u) => Some(u), None => current.repository_url }),
        r.language == replaced(current.language, req.language),
        r.default_branch == replaced(current.default_branch, req.default_branch),
{
    let ProjectResponse { id, name, slug, description, repository_url, default_branch, language, created_at, updated_at } = current;
    let (name, slug) = match req.name {
        Some(n) => {
            let s = project_slug(n.as_str());
            (n, s)
        },
        None => (name, slug),
    };
    let description = match req.description {
        Some(d) => Some(d),
        None => description,
    };
    let repository_url = match req.repository_url {
        Some(u) => Some(u),
        None => repository_url,
    };
    let language = match req.language {
        Some(l) => l,
        None => language,
    };
    let default_branch = match req.default_branch {
        Some(b) => b,
        None => default_branch,
    };
    ProjectResponse { id, name, slug, description, repository_url, default_branch, language, created_at, updated_at }
}

} // verus!
