use rustcode::api_config::{ApiProtocol, ApiProvider, EnvSnapshot};
use rustcode::onboarding::{normalize_non_empty, normalize_optional, OnboardingDraft};
use rustcode::settings::Settings;

fn draft() -> OnboardingDraft {
    let s = Settings::defaults(&EnvSnapshot::empty(), &None);
    OnboardingDraft::from_settings(&s, &EnvSnapshot::empty())
}

#[test]
fn provider_change_resets_endpoint_model_and_key() {
    let mut d = draft();
    d.set_api_key(Some(" secret ".to_string()));
    assert_eq!(d.api_key.as_deref(), Some("secret"));
    d.prepare_for_provider_change(ApiProvider::Custom);
    assert_eq!(d.provider_label(), "custom");
    assert_eq!(d.custom_provider_name.as_deref(), Some("custom"));
    assert_eq!(d.api_key, None);
    assert_eq!(d.model, "custom-model");
    d.set_custom_provider_name("  ".to_string());
    assert_eq!(d.provider_label(), "custom");
    d.set_custom_provider_name(" Acme ".to_string());
    assert_eq!(d.provider_label(), "Acme");
    d.prepare_for_provider_change(ApiProvider::OpenAI);
    assert_eq!(d.custom_provider_name, None);
    assert_eq!(d.protocol, ApiProtocol::OpenAi);
    d.set_model("   ".to_string());
    assert_eq!(d.model, "gpt-4.1-mini");
    d.set_base_url(" https://x ".to_string());
    assert_eq!(d.base_url, "https://x");
}

#[test]
fn fallbacks_are_numbered_in_the_summary() {
    let mut d = draft();
    assert_eq!(d.summary_lines().last().map(String::as_str), Some("Fallbacks: disabled"));
    assert_eq!(d.add_fallback_target(ApiProvider::OpenAI), 0);
    assert_eq!(d.add_fallback_target(ApiProvider::Custom), 1);
    let lines = d.summary_lines();
    assert_eq!(lines[0], "Primary: deepseek/deepseek-chat");
    assert_eq!(lines[2], "API key: empty or env-managed");
    assert_eq!(lines[3], "Fallbacks:");
    assert_eq!(lines[4], "  1. openai/gpt-4.1-mini");
    assert_eq!(lines[5], "  2. custom/custom-model");
    d.set_fallback_enabled(false);
    assert!(d.fallback_chain.is_empty());
}

#[test]
fn applied_draft_reads_back() {
    let mut d = draft();
    d.prepare_for_provider_change(ApiProvider::DashScope);
    d.add_fallback_target(ApiProvider::Ollama);
    let mut s = Settings::defaults(&EnvSnapshot::empty(), &None);
    d.apply_to_settings(&mut s);
    let back = OnboardingDraft::from_settings(&s, &EnvSnapshot::empty());
    assert_eq!(back.provider, d.provider);
    assert_eq!(back.model, d.model);
    assert_eq!(back.base_url, d.base_url);
    assert_eq!(back.fallback_enabled, d.fallback_enabled);
    assert_eq!(back.fallback_chain.len(), 1);
    assert_eq!(
        OnboardingDraft::fallback_target_label(&back.fallback_chain[0]),
        "ollama/llama3.1"
    );
}

#[test]
fn normalizers_trim() {
    assert_eq!(normalize_non_empty("  ".to_string(), "d".to_string()), "d");
    assert_eq!(normalize_non_empty(" v ".to_string(), "d".to_string()), "v");
    assert_eq!(normalize_optional(" \t".to_string()), None);
    assert_eq!(normalize_optional(" k ".to_string()).as_deref(), Some("k"));
}

#[test]
fn fallback_drafts_keep_only_what_differs_from_the_defaults() {
    let mut d = OnboardingDraft::for_fallback_provider(ApiProvider::OpenAI);
    assert!(!d.fallback_enabled && d.fallback_chain.is_empty());
    d.set_model("gpt-4.1".to_string());
    d.set_base_url(format!("  {}  ", ApiProvider::OpenAI.default_base_url()));
    let t = d.to_fallback_target();
    assert_eq!(t.provider, ApiProvider::OpenAI);
    assert_eq!(t.protocol, None);
    assert_eq!(t.base_url, None);
    assert_eq!(t.model, "gpt-4.1");

    let mut c = OnboardingDraft::for_fallback_provider(ApiProvider::Custom);
    c.set_custom_provider_name("mine".to_string());
    c.set_base_url("https://llm.example.com/v1".to_string());
    let t = c.to_fallback_target();
    assert_eq!(t.protocol, Some(ApiProtocol::OpenAi));
    assert_eq!(t.custom_provider_name, Some("mine".to_string()));
    assert_eq!(t.base_url, Some("https://llm.example.com/v1".to_string()));
}
