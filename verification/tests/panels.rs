use rustcode::api_config::{ApiConfigError, ApiProtocol, ApiProvider, EnvSnapshot};
use rustcode::panels::{
    next_theme, theme_icon, AppShell, OnboardingEvent, OnboardingPanel, Screen, SettingsPanel, SettingsSection,
    ShellEvent, Theme,
};
use rustcode::settings::Settings;

fn settings() -> Settings {
    Settings::defaults(&EnvSnapshot::empty(), &None)
}

#[test]
fn onboarding_panel_adds_selects_and_removes_fallbacks() {
    let mut p = OnboardingPanel::from_settings(&settings(), &EnvSnapshot::empty());
    assert_eq!(p.selected_fallback(), 0);
    p.handle(OnboardingEvent::AddFallback);
    p.handle(OnboardingEvent::AddFallback);
    assert_eq!(p.selected_fallback(), 1);
    assert!(p.draft().fallback_enabled);
    assert_eq!(p.draft().fallback_chain.len(), 2);
    p.handle(OnboardingEvent::FallbackProvider(ApiProvider::Custom));
    assert_eq!(p.draft().fallback_chain[1].provider, ApiProvider::Custom);
    assert_eq!(p.draft().fallback_chain[1].custom_provider_name.as_deref(), Some("custom"));
    p.handle(OnboardingEvent::FallbackModel("m2".to_string()));
    assert_eq!(p.draft().fallback_chain[1].model, "m2");
    p.handle(OnboardingEvent::RemoveFallback(1));
    assert_eq!(p.selected_fallback(), 0);
    p.handle(OnboardingEvent::RemoveFallback(0));
    assert_eq!(p.selected_fallback(), 0);
    assert!(!p.draft().fallback_enabled);
    p.handle(OnboardingEvent::FallbackModel("ignored".to_string()));
    assert!(p.draft().fallback_chain.is_empty());
}

#[test]
fn onboarding_panel_primary_provider_keeps_typed_values() {
    let mut p = OnboardingPanel::from_settings(&settings(), &EnvSnapshot::empty());
    p.handle(OnboardingEvent::PrimaryModel("my-model".to_string()));
    p.handle(OnboardingEvent::PrimaryProvider(ApiProvider::Custom));
    assert_eq!(p.draft().provider, ApiProvider::Custom);
    assert_eq!(p.draft().model, "my-model");
    assert_eq!(p.draft().custom_provider_name.as_deref(), Some("custom"));
    p.handle(OnboardingEvent::PrimaryProvider(ApiProvider::OpenAI));
    assert_eq!(p.draft().custom_provider_name, None);
    assert_eq!(p.draft().protocol, ApiProtocol::OpenAi);
    p.handle(OnboardingEvent::TogglePrimaryKey);
    assert_eq!(p.keys_shown(), (true, false));
}

#[test]
fn settings_panel_applies_typed_values() {
    let env = EnvSnapshot::empty();
    let mut s = settings();
    let mut panel = SettingsPanel::from_settings(&s, &env, 1u8, String::new());
    assert_eq!(panel.current_section, SettingsSection::General);
    assert_eq!(panel.provider, "deepseek");
    panel.provider = "openai".to_string();
    panel.apply_provider_defaults();
    assert_eq!(panel.model, "gpt-4.1-mini");
    panel.model = "  ".to_string();
    panel.api_key = "  sk-1  ".to_string();
    panel.fallback_enabled = true;
    panel.fallback_chain = "deepseek:deepseek-chat".to_string();
    assert!(panel.apply_to_settings(&mut s, &env, None).is_ok());
    assert_eq!(s.api.provider, ApiProvider::OpenAI);
    assert_eq!(s.model, "gpt-4.1-mini");
    assert_eq!(s.api.api_key.as_deref(), Some("sk-1"));
    assert!(s.api.fallback.enabled);
    assert_eq!(s.api.fallback.chain.len(), 1);
    panel.set_theme(2);
    assert_eq!(panel.theme(), 2);
}

#[test]
fn settings_panel_rejects_unknown_names() {
    let env = EnvSnapshot::empty();
    let mut s = settings();
    let mut panel = SettingsPanel::with_theme(0u8);
    panel.provider = "nope".to_string();
    assert!(matches!(panel.apply_to_settings(&mut s, &env, None), Err(ApiConfigError::UnsupportedProvider(v)) if v == "nope"));
    panel.provider = "custom".to_string();
    panel.protocol = "grpc".to_string();
    assert!(matches!(panel.apply_to_settings(&mut s, &env, None), Err(ApiConfigError::UnsupportedProtocol(v)) if v == "grpc"));
    assert_eq!(s.api.provider, ApiProvider::Custom);
}

#[test]
fn settings_panel_choosing_a_provider_brings_its_defaults_once() {
    let mut panel = SettingsPanel::with_theme(0u8);
    panel.provider = "deepseek".to_string();
    panel.model = "typed-model".to_string();
    panel.choose_provider("deepseek".to_string());
    assert_eq!(panel.model, "typed-model");
    panel.choose_provider("openai".to_string());
    assert_eq!(panel.provider, "openai");
    assert_eq!(panel.model, "gpt-4.1-mini");
    assert!(!panel.protocol_editable());
    panel.choose_provider("custom".to_string());
    assert!(panel.protocol_editable());
}

#[test]
fn window_frame_cycles_themes_and_screens() {
    let mut shell = AppShell::new(true);
    assert_eq!(shell.screen(), Screen::Onboarding);
    assert_eq!(theme_icon(shell.theme), "🌙");
    shell.handle(ShellEvent::CycleTheme);
    assert_eq!(shell.theme, Theme::System);
    assert_eq!(theme_icon(shell.theme), "💻");
    shell.handle(ShellEvent::CycleTheme);
    assert_eq!(shell.theme, Theme::Light);
    assert_eq!(next_theme(Theme::Light), Theme::Dark);
    shell.handle(ShellEvent::OnboardingCompleted);
    assert_eq!(shell.screen(), Screen::Chat);
    assert_eq!(shell.settings_button_label(), "⚙️");
    shell.handle(ShellEvent::ToggleSettings);
    assert_eq!(shell.screen(), Screen::Settings);
    assert_eq!(shell.settings_button_label(), "✓ ⚙️");
    shell.handle(ShellEvent::SettingsSaved(Theme::Dark));
    assert_eq!(shell.theme, Theme::Dark);
}
