//! AI providers: a local Ollama server, or none.
use vstd::prelude::*;
use vstd::string::StringExecFns;
use crate::http::new_http_client;
use crate::text::str_eq;
use crate::tokens::{trim_chars, trimmed};
use crate::text::{chars_of, string_from_chars};

verus! {

/// A provider backed by an Ollama server.
#[derive(Debug)]
pub struct OllamaProvider {
    base_url: String,
    model: String,
    client: reqwest::Client,
}

/// The server used when none is configured.
pub open spec fn default_base_url() -> Seq<char> {
    "http://localhost:11434"@
}

/// The model used when none is configured.
pub open spec fn default_model() -> Seq<char> {
    "llama3.2"@
}

/// The system prompt for fix suggestions.
pub open spec fn fix_system_prompt() -> Seq<char> {
    "You are a security expert for Stellar Soroban smart contracts. Given a finding and the relevant code, suggest a specific fix. Be concise and provide code examples."@
}

/// The system prompt for security analyses.
pub open spec fn analysis_system_prompt() -> Seq<char> {
    "You are a security analyst for Stellar Soroban smart contracts. Answer questions about scan results clearly and concisely. Focus on actionable security insights."@
}

/// The user prompt asking for a fix of a finding in some code.
pub open spec fn fix_prompt_text(finding_context: Seq<char>, code_snippet: Seq<char>) -> Seq<char> {
    "Finding: "@ + finding_context + "\n\nRelevant code:\n```rust\n"@ + code_snippet
        + "\n```\n\nProvide a specific fix suggestion with code example."@
}

/// The user prompt asking a question about scan results.
pub open spec fn analysis_prompt_text(query: Seq<char>, scan_summary: Seq<char>) -> Seq<char> {
    "Scan results:\n"@ + scan_summary + "\n\nQuestion: "@ + query + "\n\nProvide a clear security analysis."@
}

/// The answer of a generation reply: its `response` text, trimmed, or the
/// message that it was empty.
pub open spec fn reply_outcome(response: Option<Seq<char>>) -> Result<Seq<char>, Seq<char>> {
    match response {
        Some(t) => Ok(trimmed(t)),
        None => Err("Empty response from Ollama"@),
    }
}

impl OllamaProvider {
    /// The server of the provider.
    pub closed spec fn spec_base_url(&self) -> Seq<char> {
        self.base_url@
    }

    /// The model of the provider.
    pub closed spec fn spec_model(&self) -> Seq<char> {
        self.model@
    }

    /// A provider of the given server and model, `http://localhost:11434` and
    /// `llama3.2` when not given.
    pub fn new(base_url: Option<String>, model: Option<String>) -> (r: OllamaProvider)
        ensures
            r.spec_base_url() == (match base_url { Some(u) => u@, None => default_base_url() }),
            r.spec_model() == (match model { Some(m) => m@, None => default_model() }),
    {
        let base_url = match base_url {
            Some(u) => u,
            None => String::from_str("http://localhost:11434"),
        };
        let model = match model {
            Some(m) => m,
            None => String::from_str("llama3.2"),
        };
        OllamaProvider { base_url, model, client: new_http_client() }
    }

    /// The model of the provider.
    pub fn model(&self) -> (r: &str)
        ensures
            r@ == self.spec_model(),
    {
        self.model.as_str()
    }

    /// The HTTP client of the provider.
    pub closed spec fn spec_client(&self) -> reqwest::Client {
        self.client
    }

    /// The HTTP client requests go through: the provider's own.
    pub fn client(&self) -> (r: &reqwest::Client)
        ensures
            *r == self.spec_client(),
    {
        &self.client
    }

    /// Where generation requests go.
    pub fn generate_url(&self) -> (r: String)
        ensures
            r@ == self.spec_base_url() + "/api/generate"@,
    {
        let mut r = self.base_url.clone();
        r.append("/api/generate");
        r
    }

    /// Where health checks go.
    pub fn health_url(&self) -> (r: String)
        ensures
            r@ == self.spec_base_url() + "/api/tags"@,
    {
        let mut r = self.base_url.clone();
        r.append("/api/tags");
        r
    }

    /// The system and user prompts of a fix suggestion.
    pub fn fix_prompts(&self, finding_context: &str, code_snippet: &str) -> (r: (String, String))
        ensures
            r.0@ == fix_system_prompt(),
            r.1@ == fix_prompt_text(finding_context@, code_snippet@),
    {
        let system = String::from_str(
            "You are a security expert for Stellar Soroban smart contracts. Given a finding and the relevant code, suggest a specific fix. Be concise and provide code examples.",
        );
        let mut prompt = String::from_str("Finding: ");
        prompt.append(finding_context);
        prompt.append("\n\nRelevant code:\n```rust\n");
        prompt.append(code_snippet);
        prompt.append("\n```\n\nProvide a specific fix suggestion with code example.");
        (system, prompt)
    }

    /// The system and user prompts of a security analysis.
    pub fn analysis_prompts(&self, query: &str, scan_summary: &str) -> (r: (String, String))
        ensures
            r.0@ == analysis_system_prompt(),
            r.1@ == analysis_prompt_text(query@, scan_summary@),
    {
        let system = String::from_str(
            "You are a security analyst for Stellar Soroban smart contracts. Answer questions about scan results clearly and concisely. Focus on actionable security insights.",
        );
        let mut prompt = String::from_str("Scan results:\n");
        prompt.append(scan_summary);
        prompt.append("\n\nQuestion: ");
        prompt.append(query);
        prompt.append("\n\nProvide a clear security analysis.");
        (system, prompt)
    }
}

/// Reads the answer of a generation reply from its `response` field.
pub fn read_reply(response: Option<&str>) -> (r: Result<String, String>)
    ensures
        match reply_outcome(match response { Some(t) => Some(t@), None => None }) {
            Ok(t) => r matches Ok(s) && s@ == t,
            Err(m) => r matches Err(s) && s@ == m,
        },
{
    match response {
        Some(t) => {
            let cs = chars_of(t);
            let tc = trim_chars(&cs);
            Ok(string_from_chars(&tc))
        },
        None => Err(String::from_str("Empty response from Ollama")),
    }
}

/// The provider used when none is configured: it answers nothing.
pub struct DisabledProvider;

/// The message of a provider that is not configured.
pub open spec fn not_configured_text() -> Seq<char> {
    "AI provider is not configured"@
}

impl DisabledProvider {
    /// Always refuses, as no provider is configured.
    pub fn generate_fix_suggestion(&self, finding_context: &str, code_snippet: &str) -> (r: Result<String, String>)
        ensures
            r matches Err(m) && m@ == not_configured_text(),
    {
        Err(String::from_str("AI provider is not configured"))
    }

    /// Always refuses, as no provider is configured.
    pub fn analyze_security(&self, query: &str, scan_summary: &str) -> (r: Result<String, String>)
        ensures
            r matches Err(m) && m@ == not_configured_text(),
    {
        Err(String::from_str("AI provider is not configured"))
    }

    /// Never available.
    pub fn health(&self) -> (r: Result<bool, String>)
        ensures
            r == Ok::<bool, String>(false),
    {
        Ok(false)
    }
}

/// Which provider answers.
#[derive(Debug, Clone, Copy, PartialEq, Eq, Structural)]
pub enum ProviderKind {
    Ollama,
    Disabled,
}

/// Ollama when its server is configured or `AI_PROVIDER` names it, else none.
pub fn provider_kind(ollama_url_set: bool, ai_provider: Option<&str>) -> (r: ProviderKind)
    ensures
        r == (if ollama_url_set || (ai_provider matches Some(p) && p@ == "ollama"@) {
            ProviderKind::Ollama
        } else {
            ProviderKind::Disabled
        }),
{
    let named = match ai_provider {
        Some(p) => str_eq(p, "ollama"),
        None => false,
    };
    if ollama_url_set || named {
        ProviderKind::Ollama
    } else {
        ProviderKind::Disabled
    }
}

/// The provider name a health check reports: `ollama` when its server is
/// configured, else `disabled`.
pub fn provider_name(ollama_url_set: bool) -> (r: String)
    ensures
        r@ == (if ollama_url_set { "ollama"@ } else { "disabled"@ }),
{
    if ollama_url_set {
        String::from_str("ollama")
    } else {
        String::from_str("disabled")
    }
}

} // verus!
