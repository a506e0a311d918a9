//! The request and response bodies of the API, and the responses whose content
//! the handlers compute from the library's values.
use vstd::prelude::*;
use vstd::string::StringExecFns;
use crate::auth::jwt::AuthTokens;
use crate::auth::wallet::{build_challenge_message, challenge_text};
use crate::contracts::types::{info_view, supported_contracts, supported_table};

verus! {

/// `POST /auth/login`.
#[derive(Debug, Clone)]
pub struct LoginRequest {
    pub email: String,
    pub password: String,
}

/// The answer to a sign-in or sign-up.
#[derive(Debug, Clone)]
pub struct LoginResponse {
    pub tokens: AuthTokens,
    pub user_id: String,
    pub role: String,
}

/// `POST /auth/register`.
#[derive(Debug, Clone)]
pub struct RegisterRequest {
    pub email: String,
    pub password: String,
    pub display_name: String,
}

/// `POST /auth/refresh`.
#[derive(Debug, Clone)]
pub struct RefreshRequest {
    pub refresh_token: String,
}

/// The query of a contract listing.
#[derive(Debug, Clone)]
pub struct ListContractsParams {
    pub network: Option<String>,
}

/// `POST` of a contract deployment.
#[derive(Debug, Clone)]
pub struct DeployRequest {
    pub contract_name: String,
    pub network: Option<String>,
}

/// A supported contract as the API lists it.
#[derive(Debug, Clone)]
pub struct ContractInfoResponse {
    pub name: String,
    pub description: String,
    pub wasm_file: String,
}

/// The supported contracts as the API lists them, in order.
pub fn contract_info_responses() -> (r: Vec<ContractInfoResponse>)
    ensures
        r@.len() == supported_table().len(),
        forall|i: int| 0 <= i < r@.len() ==> (#[trigger] r@[i]).name@ == supported_table()[i].0
            && r@[i].description@ == supported_table()[i].1 && r@[i].wasm_file@ == supported_table()[i].2,
{
    let infos = supported_contracts();
    let mut out: Vec<ContractInfoResponse> = Vec::new();
    let mut i: usize = 0;
    while i < infos.len()
        invariant
            i <= infos@.len(),
            infos@.len() == supported_table().len(),
            forall|j: int| 0 <= j < infos@.len() ==> info_view(#[trigger] infos@[j]) == supported_table()[j],
            out@.len() == i,
            forall|j: int| 0 <= j < i ==> (#[trigger] out@[j]).name@ == supported_table()[j].0
                && out@[j].description@ == supported_table()[j].1 && out@[j].wasm_file@ == supported_table()[j].2,
        decreases infos.len() - i,
    {
        let c = &infos[i];
        proof {
            assert(info_view(infos@[i as int]) == supported_table()[i as int]);
        }
        out.push(ContractInfoResponse {
            name: String::from_str(c.name),
            description: String::from_str(c.description),
            wasm_file: String::from_str(c.wasm_file),
        });
        i = i + 1;
    }
    out
}

/// A scan listed on the dashboard.
#[derive(Debug, Clone)]
pub struct RecentScan {
    pub id: String,
    pub project_name: String,
    pub status: String,
    pub score: Option<i32>,
    pub created_at: String,
}

/// How many findings of a severity there are.
#[derive(Debug, Clone)]
pub struct SeverityCount {
    pub severity: String,
    pub count: i64,
}

/// The query of a findings listing.
#[derive(Debug, Clone)]
pub struct FindingsQuery {
    pub scan_id: Option<String>,
    pub severity: Option<String>,
    pub page: Option<usize>,
    pub per_page: Option<usize>,
}

/// A finding as the API lists it.
#[derive(Debug, Clone)]
pub struct FindingResponse {
    pub id: String,
    pub rule_id: String,
    pub severity: String,
    pub category: String,
    pub file_path: String,
    pub line: i32,
    pub message: String,
}

/// A notification as the API lists it.
#[derive(Debug, Clone)]
pub struct NotificationResponse {
    pub id: String,
    pub organization_id: String,
    pub event_type: String,
    pub title: String,
    pub message: String,
    pub severity: String,
    pub resource_type: Option<String>,
    pub resource_id: Option<String>,
    pub is_read: bool,
    pub created_at: String,
}

/// The query of a notifications listing.
#[derive(Debug, Clone)]
pub struct NotificationsQuery {
    pub limit: Option<i64>,
}

/// How many notifications are unread.
#[derive(Debug, Clone)]
pub struct UnreadCountResponse {
    pub count: i64,
}

/// `POST /projects`.
#[derive(Debug, Clone)]
pub struct CreateProjectRequest {
    pub name: String,
    pub description: Option<String>,
    pub repository_url: Option<String>,
    pub language: Option<String>,
    pub default_branch: Option<String>,
}

/// `PUT /projects/{id}`: the fields given change.
#[derive(Debug, Clone)]
pub struct UpdateProjectRequest {
    pub name: Option<String>,
    pub description: Option<String>,
    pub repository_url: Option<String>,
    pub language: Option<String>,
    pub default_branch: Option<String>,
}

/// A project as the API returns it.
#[derive(Debug, Clone)]
pub struct ProjectResponse {
    pub id: String,
    pub name: String,
    pub slug: String,
    pub description: Option<String>,
    pub repository_url: Option<String>,
    pub default_branch: String,
    pub language: String,
    pub created_at: String,
    pub updated_at: String,
}

/// A report as the API returns it.
#[derive(Debug, Clone)]
pub struct ReportResponse {
    pub id: String,
    pub scan_result_id: String,
    pub format: String,
    pub content: String,
    pub file_path: Option<String>,
    pub file_size: i64,
    pub created_at: String,
}

/// A scan job as the API returns it.
#[derive(Debug, Clone)]
pub struct ScanResponse {
    pub id: String,
    pub project_id: String,
    pub branch: String,
    pub status: String,
    pub trigger: String,
    pub priority: i32,
    pub score: Option<i32>,
    pub progress: u8,
    pub created_at: String,
    pub completed_at: Option<String>,
}

/// The progress of a scan.
#[derive(Debug, Clone)]
pub struct ProgressResponse {
    pub scan_id: String,
    pub status: String,
    pub progress: u8,
}

/// `POST /auth/wallet/challenge`.
#[derive(Debug, Clone)]
pub struct ChallengeRequest {
    pub public_key: String,
}

/// A challenge for a wallet to sign.
#[derive(Debug, Clone)]
pub struct ChallengeResponse {
    pub nonce: String,
    pub message: String,
}

impl ChallengeResponse {
    /// The challenge for a nonce: the nonce and the message to sign.
    pub fn for_nonce(nonce: String) -> (r: ChallengeResponse)
        ensures
            r.nonce == nonce,
            r.message@ == challenge_text(nonce@),
    {
        let message = build_challenge_message(nonce.as_str());
        ChallengeResponse { nonce, message }
    }
}

/// `POST /auth/wallet/verify`.
#[derive(Debug, Clone)]
pub struct WalletLoginRequest {
    pub public_key: String,
    pub signed_message: String,
}

/// The answer to a wallet sign-in.
#[derive(Debug, Clone)]
pub struct WalletLoginResponse {
    pub tokens: AuthTokens,
    pub user_id: String,
    pub is_new_user: bool,
}

/// `POST /v1/webhooks/github`.
#[derive(Debug, Clone)]
pub struct InstallRequest {
    pub installation_id: i64,
    pub setup_action: Option<String>,
}

} // verus!
