use rustcode::api_config::{ApiProtocol, ApiProvider, EnvSnapshot};
use rustcode::fallback_dialog::DialogAnswer;
use rustcode::onboarding::OnboardingDraft;
use rustcode::onboarding_dialog::{onboarding_start, onboarding_step, OnboardingQuestion};
use rustcode::settings::Settings;

fn drive(answers: Vec<DialogAnswer>) -> (Vec<String>, OnboardingQuestion) {
    let settings = Settings::default();
    let (mut dialog, mut question) =
        onboarding_start(OnboardingDraft::from_settings(&settings, &EnvSnapshot::empty()));
    let mut asked = Vec::new();
    for answer in answers {
        asked.push(format!("{:?}", question));
        let (d, q) = onboarding_step(dialog, answer);
        dialog = d;
        question = q;
    }
    (asked, question)
}

#[test]
fn preset_onboarding_without_fallbacks_saves_the_draft() {
    let (asked, last) = drive(vec![
        DialogAnswer::Provider(ApiProvider::OpenAI),
        DialogAnswer::Text(String::new()),
        DialogAnswer::Text("gpt-x".to_string()),
        DialogAnswer::Secret(Some("sk-1".to_string())),
        DialogAnswer::YesNo(false),
        DialogAnswer::YesNo(true),
    ]);
    assert!(asked[0].contains("Provider { default: DeepSeek }"));
    assert!(asked[1].contains("BaseUrl { default: \"https://api.openai.com\" }"));
    assert!(asked[2].contains("Model { default: \"gpt-4.1-mini\" }"));
    assert!(asked[4].contains("ConfigureFallback { default: false"));
    assert!(asked[5].contains("Save {"));
    match last {
        OnboardingQuestion::Done(d) => {
            assert_eq!(d.provider, ApiProvider::OpenAI);
            assert_eq!(d.protocol, ApiProtocol::OpenAi);
            assert_eq!(d.model, "gpt-x");
            assert_eq!(d.api_key.as_deref(), Some("sk-1"));
            assert!(!d.fallback_enabled);
        }
        other => panic!("unexpected {:?}", other),
    }
}

#[test]
fn custom_onboarding_asks_protocol_and_name_and_can_be_cancelled() {
    let (asked, last) = drive(vec![
        DialogAnswer::Provider(ApiProvider::Custom),
        DialogAnswer::Protocol(ApiProtocol::Responses),
        DialogAnswer::Text("proxy".to_string()),
        DialogAnswer::Text("https://p.local".to_string()),
        DialogAnswer::Text(String::new()),
        DialogAnswer::Secret(None),
        DialogAnswer::YesNo(true),
        DialogAnswer::YesNo(true),
        DialogAnswer::Provider(ApiProvider::Ollama),
        DialogAnswer::YesNo(false),
        DialogAnswer::Text(String::new()),
        DialogAnswer::Secret(None),
        DialogAnswer::YesNo(false),
        DialogAnswer::YesNo(false),
    ]);
    assert!(asked[1].contains("Protocol { default: OpenAi }"));
    assert!(asked[2].contains("CustomName { default: \"custom\" }"));
    assert!(asked[5].contains("ApiKey { existing: None, optional: false }"));
    assert!(asked[13].contains("Save {"));
    assert!(asked[13].contains("Fallbacks:\"") && asked[13].contains("ollama/llama3.1"));
    assert!(matches!(last, OnboardingQuestion::Cancelled));
}
