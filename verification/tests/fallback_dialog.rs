use rustcode::api_config::{ApiProtocol, ApiProvider, FallbackTarget};
use rustcode::fallback_dialog::{fallback_dialog_start, fallback_dialog_step, DialogAnswer, FallbackQuestion};

fn target(provider: ApiProvider, model: &str) -> FallbackTarget {
    FallbackTarget {
        provider,
        protocol: None,
        custom_provider_name: None,
        api_key: None,
        base_url: None,
        model: model.to_string(),
    }
}

fn run(existing: Vec<FallbackTarget>, answers: Vec<DialogAnswer>) -> (Vec<String>, Option<Vec<FallbackTarget>>) {
    let (mut dialog, mut question) = fallback_dialog_start(existing);
    let mut asked = Vec::new();
    for answer in answers {
        asked.push(format!("{:?}", question));
        if let FallbackQuestion::Done(chain) = question {
            return (asked, Some(chain));
        }
        let (d, q) = fallback_dialog_step(dialog, answer);
        dialog = d;
        question = q;
    }
    match question {
        FallbackQuestion::Done(chain) => (asked, Some(chain)),
        _ => (asked, None),
    }
}

#[test]
fn declining_gives_an_empty_chain() {
    let (asked, chain) = run(vec![target(ApiProvider::OpenAI, "m")], vec![DialogAnswer::YesNo(false)]);
    assert!(asked[0].contains("ConfigureFallback { default: true"));
    assert_eq!(chain.unwrap().len(), 0);
}

#[test]
fn existing_targets_are_kept_one_by_one() {
    let existing = vec![target(ApiProvider::OpenAI, "a"), target(ApiProvider::DeepSeek, "b")];
    let (asked, chain) = run(
        existing,
        vec![
            DialogAnswer::YesNo(true),
            DialogAnswer::YesNo(false),
            DialogAnswer::YesNo(true),
            DialogAnswer::YesNo(false),
        ],
    );
    assert!(asked[1].contains("KeepExisting { index: 0, label: \"openai/a\""));
    assert!(asked[3].contains("AddAnother { default: false }"));
    let chain = chain.unwrap();
    assert_eq!(chain.len(), 1);
    assert_eq!(chain[0].model, "b");
}

#[test]
fn a_custom_target_is_asked_protocol_name_and_url() {
    let (asked, chain) = run(
        Vec::new(),
        vec![
            DialogAnswer::YesNo(true),
            DialogAnswer::YesNo(true),
            DialogAnswer::Provider(ApiProvider::Custom),
            DialogAnswer::Protocol(ApiProtocol::Anthropic),
            DialogAnswer::Text("proxy".to_string()),
            DialogAnswer::Text("https://proxy.local".to_string()),
            DialogAnswer::Text("m1".to_string()),
            DialogAnswer::Secret(Some(" sk ".to_string())),
            DialogAnswer::YesNo(false),
        ],
    );
    assert!(asked[0].contains("ConfigureFallback { default: false"));
    assert!(asked[1].contains("AddAnother { default: true }"));
    let chain = chain.unwrap();
    assert_eq!(chain.len(), 1);
    assert_eq!(chain[0].provider, ApiProvider::Custom);
    assert_eq!(chain[0].protocol, Some(ApiProtocol::Anthropic));
    assert_eq!(chain[0].custom_provider_name.as_deref(), Some("proxy"));
    assert_eq!(chain[0].base_url.as_deref(), Some("https://proxy.local"));
    assert_eq!(chain[0].api_key.as_deref(), Some("sk"));
    assert_eq!(chain[0].model, "m1");
}

#[test]
fn a_preset_keeps_its_default_url_unless_overridden() {
    let (asked, chain) = run(
        Vec::new(),
        vec![
            DialogAnswer::YesNo(true),
            DialogAnswer::YesNo(true),
            DialogAnswer::Provider(ApiProvider::Ollama),
            DialogAnswer::YesNo(false),
            DialogAnswer::Text(String::new()),
            DialogAnswer::Secret(None),
            DialogAnswer::Text("wrong kind".to_string()),
            DialogAnswer::YesNo(false),
        ],
    );
    assert!(asked[4].contains("Model { default: \"llama3.1\" }"));
    assert!(asked[5].contains("ApiKey { optional: true }"));
    assert!(asked[6].contains("AddAnother { default: false }"));
    assert!(asked[7].contains("AddAnother { default: false }"));
    let chain = chain.unwrap();
    assert_eq!(chain.len(), 1);
    assert_eq!(chain[0].base_url, None);
    assert_eq!(chain[0].protocol, None);
    assert_eq!(chain[0].model, "llama3.1");
}
