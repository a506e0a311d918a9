//! What the AI endpoints ask the provider, and how its failures are reported.
use vstd::prelude::*;
use vstd::string::StringExecFns;
use crate::ai::provider::provider_name;
use crate::api::errors::ApiError;

verus! {

/// The finding context of a fix request: `[<rule>] <message> at <file>`.
pub fn fix_context(rule_id: &str, message: &str, file_path: &str) -> (r: String)
    ensures
        r@ == "["@ + rule_id@ + "] "@ + message@ + " at "@ + file_path@,
{
    let mut r = String::from_str("[");
    r.append(rule_id);
    r.append("] ");
    r.append(message);
    r.append(" at ");
    r.append(file_path);
    r
}

/// The scan summary of an analysis request, or a note that none was given.
pub fn summary_or_note(scan_summary: Option<String>) -> (r: String)
    ensures
        r@ == (match scan_summary { Some(s) => s@, None => "No scan summary provided"@ }),
{
    match scan_summary {
        Some(s) => s,
        None => String::from_str("No scan summary provided"),
    }
}

/// A provider failure, reported as an internal error.
pub fn ai_service_error(message: &str) -> (r: ApiError)
    ensures
        r matches ApiError::Internal(m) && m@ == "AI service error: "@ + message@,
{
    let mut m = String::from_str("AI service error: ");
    m.append(message);
    ApiError::Internal(m)
}

/// `POST /v1/ai/fix-suggestion`.
#[derive(Debug, Clone)]
pub struct FixSuggestionRequest {
    pub finding_id: String,
    pub rule_id: String,
    pub message: String,
    pub file_path: String,
    pub code_snippet: String,
}

impl FixSuggestionRequest {
    /// The finding context the provider is asked about.
    pub fn finding_context(&self) -> (r: String)
        ensures
            r@ == "["@ + self.rule_id@ + "] "@ + self.message@ + " at "@ + self.file_path@,
    {
        fix_context(self.rule_id.as_str(), self.message.as_str(), self.file_path.as_str())
    }
}

/// A suggested fix.
#[derive(Debug, Clone)]
pub struct FixSuggestionResponse {
    pub suggestion: String,
}

/// `POST /v1/ai/analyze`.
#[derive(Debug, Clone)]
pub struct AnalyzeRequest {
    pub query: String,
    pub scan_summary: Option<String>,
}

/// An analysis of scan results.
#[derive(Debug, Clone)]
pub struct AnalyzeResponse {
    pub analysis: String,
}

/// Whether the assistant is available, and which provider answers.
#[derive(Debug, Clone)]
pub struct AiHealthResponse {
    pub available: bool,
    pub provider: String,
}

impl AiHealthResponse {
    /// The health report: the provider's availability, and `ollama` as the
    /// provider when its server is configured, else `disabled`.
    pub fn new(available: bool, ollama_url_set: bool) -> (r: AiHealthResponse)
        ensures
            r.available == available,
            r.provider@ == (if ollama_url_set { "ollama"@ } else { "disabled"@ }),
    {
        AiHealthResponse { available, provider: provider_name(ollama_url_set) }
    }
}

} // verus!
