use rustcode::api_config::ApiProvider;
use rustcode::prompts::{
    interpret_line, interpret_secret, interpret_yes_no, provider_choice, provider_menu,
    provider_menu_lines, secret_prompt, yes_no_suffix,
};

#[test]
fn provider_menu_marks_the_default() {
    let lines = provider_menu_lines(ApiProvider::OpenAI);
    assert_eq!(lines.len(), provider_menu().len());
    assert_eq!(lines[0], "  1. deepseek");
    assert_eq!(lines[1], "  2. openai (default)");
    assert_eq!(lines[2], "  3. anthropic");
    assert_eq!(lines[8], "  9. custom");
}

#[test]
fn provider_choice_takes_numbers_and_names() {
    assert_eq!(provider_choice("2"), Some(ApiProvider::OpenAI));
    assert_eq!(provider_choice("0"), Some(ApiProvider::DeepSeek));
    assert_eq!(provider_choice("6"), Some(ApiProvider::DashScope));
    assert_eq!(provider_choice("9"), Some(ApiProvider::Custom));
    assert_eq!(provider_choice("10"), None);
    assert_eq!(provider_choice(" Gemini "), Some(ApiProvider::Gemini));
    assert_eq!(provider_choice("Qwen"), Some(ApiProvider::DashScope));
    assert_eq!(provider_choice("nope"), None);
}

#[test]
fn yes_no_answers() {
    assert_eq!(yes_no_suffix(true), "[Y/n]");
    assert_eq!(yes_no_suffix(false), "[y/N]");
    assert_eq!(interpret_yes_no("  ", true), Some(true));
    assert_eq!(interpret_yes_no("", false), Some(false));
    assert_eq!(interpret_yes_no(" YES ", false), Some(true));
    assert_eq!(interpret_yes_no("n", true), Some(false));
    assert_eq!(interpret_yes_no("maybe", true), None);
}

#[test]
fn line_and_secret_answers() {
    assert_eq!(interpret_line("   ", "gpt"), "gpt");
    assert_eq!(interpret_line("  m2 ", "gpt"), "m2");
    let current = "sk-old".to_string();
    assert_eq!(interpret_secret(" - ", Some(&current)), None);
    assert_eq!(interpret_secret("", Some(&current)), Some("sk-old".to_string()));
    assert_eq!(interpret_secret("", None), None);
    assert_eq!(interpret_secret(" sk-new ", Some(&current)), Some("sk-new".to_string()));
    assert_eq!(secret_prompt("API key", false, true), "API key [leave blank to skip]");
    assert_eq!(
        secret_prompt("API key", true, false),
        "API key [press Enter to keep current, type '-' to clear]"
    );
}
