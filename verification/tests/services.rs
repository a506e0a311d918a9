use astinel_backend::ai::requests::{AiHealthResponse, FixSuggestionRequest};
use astinel_backend::api::dto::{contract_info_responses, ChallengeResponse};
use astinel_backend::ai::provider::{provider_kind, provider_name, read_reply, DisabledProvider, OllamaProvider, ProviderKind};
use astinel_backend::ai::requests::{ai_service_error, fix_context, summary_or_note};
use astinel_backend::api::errors::ApiError;
use astinel_backend::cache::{RateLimiter, ScanStatusCache, SessionStore, StoredProgress, WebhookDedup};

#[test]
fn cache_keys() {
    assert_eq!(SessionStore::refresh_key("j1"), "session:refresh:j1");
    assert_eq!(RateLimiter::limit_key("ip"), "ratelimit:ip");
    assert_eq!(WebhookDedup::dedup_key("e1"), "webhook:dedup:e1");
    assert_eq!(ScanStatusCache::progress_key("s"), "scan:s:progress");
    assert_eq!(ScanStatusCache::cancelled_key("s"), "scan:s:cancelled");
}

#[test]
fn rate_limit_decisions() {
    assert_eq!(RateLimiter::window_start(1000, 60), 940);
    assert_eq!(RateLimiter::window_start(1000, u64::MAX), 1001);
    assert!(RateLimiter::allows(4, 5));
    assert!(!RateLimiter::allows(5, 5));
    assert_eq!(RateLimiter::request_member("ip", 1000), "ip:1000");
    assert_eq!(RateLimiter::expiry_secs(60), 61);
    assert!(WebhookDedup::is_duplicate_reply(None));
    assert!(!WebhookDedup::is_duplicate_reply(Some("OK".to_string())));
}

#[test]
fn progress_records() {
    assert_eq!(ScanStatusCache::progress_value(42, "parse \"x\""), "{\"p\":42,\"ph\":\"parse \\\"x\\\"\"}");
    assert_eq!(
        ScanStatusCache::progress_value(7, "a\\b\n\u{1}\u{7f}é"),
        "{\"p\":7,\"ph\":\"a\\\\b\\n\\u0001\u{7f}é\"}"
    );
    assert_eq!(ScanStatusCache::read_progress(None), (0, "unknown".to_string()));
    let s = StoredProgress { p: Some(300), ph: None };
    assert_eq!(ScanStatusCache::read_progress(Some(s)), (44, "unknown".to_string()));
    let s = StoredProgress { p: Some(7), ph: Some("rules".to_string()) };
    assert_eq!(ScanStatusCache::read_progress(Some(s)), (7, "rules".to_string()));
}

#[test]
fn ollama_provider_settings() {
    let p = OllamaProvider::new(None, None);
    assert_eq!(p.generate_url(), "http://localhost:11434/api/generate");
    assert_eq!(p.health_url(), "http://localhost:11434/api/tags");
    assert_eq!(p.model(), "llama3.2");
    let q = OllamaProvider::new(Some("http://h:1".to_string()), Some("m".to_string()));
    assert_eq!(q.generate_url(), "http://h:1/api/generate");
    let (system, prompt) = q.fix_prompts("[r] msg at f.rs", "fn x() {}");
    assert!(system.starts_with("You are a security expert"));
    assert_eq!(prompt, "Finding: [r] msg at f.rs\n\nRelevant code:\n```rust\nfn x() {}\n```\n\nProvide a specific fix suggestion with code example.");
    let (_, prompt) = q.analysis_prompts("why?", "none");
    assert_eq!(prompt, "Scan results:\nnone\n\nQuestion: why?\n\nProvide a clear security analysis.");
}

#[test]
fn replies_and_providers() {
    assert_eq!(read_reply(Some("  fixed \n")).unwrap(), "fixed");
    assert_eq!(read_reply(None).unwrap_err(), "Empty response from Ollama");
    let d = DisabledProvider;
    assert_eq!(d.generate_fix_suggestion("a", "b").unwrap_err(), "AI provider is not configured");
    assert_eq!(d.analyze_security("a", "b").unwrap_err(), "AI provider is not configured");
    assert_eq!(d.health(), Ok(false));
    assert_eq!(provider_kind(true, None), ProviderKind::Ollama);
    assert_eq!(provider_kind(false, Some("ollama")), ProviderKind::Ollama);
    assert_eq!(provider_kind(false, Some("other")), ProviderKind::Disabled);
    assert_eq!(provider_name(false), "disabled");
    assert_eq!(fix_context("r", "m", "f"), "[r] m at f");
    assert_eq!(summary_or_note(None), "No scan summary provided");
    match ai_service_error("down") {
        ApiError::Internal(m) => assert_eq!(m, "AI service error: down"),
        _ => panic!("expected internal error"),
    }
}

#[test]
fn response_bodies() {
    let list = contract_info_responses();
    assert_eq!(list.len(), 5);
    assert_eq!(list[1].name, "astinel-payable");
    assert_eq!(list[1].wasm_file, "astinel_payable.wasm");
    let c = ChallengeResponse::for_nonce("xyz".to_string());
    assert_eq!(c.message, "Astinel login: xyz");
    assert_eq!(c.nonce, "xyz");
    let h = AiHealthResponse::new(true, true);
    assert!(h.available);
    assert_eq!(h.provider, "ollama");
    let req = FixSuggestionRequest {
        finding_id: "f".to_string(),
        rule_id: "r".to_string(),
        message: "m".to_string(),
        file_path: "p.rs".to_string(),
        code_snippet: "x".to_string(),
    };
    assert_eq!(req.finding_context(), "[r] m at p.rs");
}
