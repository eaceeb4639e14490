use rustcode::api_config::{ApiProtocol, ApiProvider, EnvSnapshot};
use rustcode::config::{
    merge_permissions, merge_session, ProjectLocalPermissions, ProjectLocalSessionSettings,
    ProjectLocalSettings, ProjectPermissionRuleKind, SessionSettings,
};
use rustcode::paths::{
    config_dir_under, join_path, project_file_history_dir, project_local_settings_path,
    project_permission_events_path, project_root_from, project_rustcode_dir, project_sessions_dir,
    project_state_dir, project_tasks_dir,
};
use rustcode::permissions::{PermissionMode, PermissionsSettings};
use rustcode::settings::{split_list, Settings, SettingsError};

fn env(vars: &[(&str, &str)]) -> EnvSnapshot {
    EnvSnapshot {
        vars: vars
            .iter()
            .map(|(k, v)| (k.to_string(), v.to_string()))
            .collect(),
    }
}

#[test]
fn merge_permissions_unions_rules_and_prefers_local_mode() {
    let global = PermissionsSettings {
        mode: PermissionMode::DenyAll,
        allow_tools: vec!["file_read".to_string()],
        deny_tools: vec!["execute_command".to_string()],
        ask_tools: vec!["search".to_string()],
    };
    let local = ProjectLocalPermissions {
        mode: Some(PermissionMode::Ask),
        allow_tools: vec!["file_write".to_string()],
        deny_tools: vec!["file_edit".to_string()],
        ask_tools: vec!["search".to_string(), "list_files".to_string()],
    };

    let merged = merge_permissions(&global, Some(&local));

    assert_eq!(merged.mode, PermissionMode::Ask);
    assert_eq!(merged.allow_tools, vec!["file_read", "file_write"]);
    assert_eq!(merged.deny_tools, vec!["execute_command", "file_edit"]);
    assert_eq!(merged.ask_tools, vec!["search", "list_files"]);
}

#[test]
fn merge_session_prefers_local_overrides() {
    let global = SessionSettings {
        auto_restore_last_session: false,
        persist_transcript: false,
    };
    let local = ProjectLocalSessionSettings {
        auto_restore_last_session: Some(true),
        persist_transcript: None,
    };

    let merged = merge_session(&global, Some(&local));

    assert!(merged.auto_restore_last_session);
    assert!(!merged.persist_transcript);
}

#[test]
fn local_rules_move_between_lists_case_insensitively() {
    let mut local = ProjectLocalSettings { permissions: None, session: None };
    let p = local.add_permission_rule(ProjectPermissionRuleKind::Allow, "file_read");
    assert_eq!(p.allow_tools, vec!["file_read"]);
    let p = local.add_permission_rule(ProjectPermissionRuleKind::Deny, "FILE_READ");
    assert!(p.allow_tools.is_empty());
    assert_eq!(p.deny_tools, vec!["FILE_READ"]);
    let p = local.remove_permission_rule(ProjectPermissionRuleKind::Deny, "file_read");
    assert!(p.deny_tools.is_empty());
    assert!(local.permissions.is_some());
}

#[test]
fn project_paths_are_laid_out_under_rustcode() {
    assert_eq!(project_root_from(None, Some("/cwd")).as_deref(), Some("/cwd"));
    assert_eq!(project_root_from(Some("/p"), Some("/cwd")).as_deref(), Some("/p"));
    assert_eq!(project_root_from(None, None), None);
    assert_eq!(project_rustcode_dir(Some("/p"), None).as_deref(), Some("/p/rustcode"));
    assert_eq!(
        project_local_settings_path(Some("/p/"), None).as_deref(),
        Some("/p/rustcode/settings.local.json")
    );
    assert_eq!(project_sessions_dir(Some("/p"), None).as_deref(), Some("/p/rustcode/sessions"));
    assert_eq!(project_state_dir(Some("/p"), None).as_deref(), Some("/p/rustcode/state"));
    assert_eq!(project_tasks_dir(Some("/p"), None).as_deref(), Some("/p/rustcode/state/tasks"));
    assert_eq!(
        project_file_history_dir(Some("/p"), None).as_deref(),
        Some("/p/rustcode/state/file-history")
    );
    assert_eq!(
        project_permission_events_path(None, Some("/c")).as_deref(),
        Some("/c/rustcode/state/permission-events.json")
    );
    assert_eq!(project_tasks_dir(None, None), None);
    assert_eq!(config_dir_under(&None), "./.rustcode");
    assert_eq!(join_path("", "a"), "a");
    assert_eq!(join_path("/x", "/abs"), "/abs");
}

#[test]
fn setting_updates_follow_each_key() {
    let e = env(&[]);
    let mut s = Settings::defaults(&e, &Some("/home/u".to_string()));
    assert_eq!(s.model, "deepseek-chat");
    assert_eq!(s.memory.path, "/home/u/.rustcode/memory.json");
    assert_eq!(s.plugins.plugin_dir, "/home/u/.rustcode/plugins");

    s.apply_setting("provider", "OpenAI", &e, None).unwrap();
    assert_eq!(s.api.provider, ApiProvider::OpenAI);
    assert_eq!(s.model, "gpt-4.1-mini");
    assert_eq!(s.api.base_url, "https://api.openai.com");

    s.apply_setting("verbose", "yes", &e, None).unwrap();
    assert!(!s.verbose);
    s.apply_setting("verbose", "true", &e, None).unwrap();
    assert!(s.verbose);
    s.apply_setting("max_tokens", "+512", &e, None).unwrap();
    assert_eq!(s.api.max_tokens, 512);
    s.apply_setting("max_tokens", "lots", &e, None).unwrap();
    assert_eq!(s.api.max_tokens, 4096);
    s.apply_setting("permissions.allow_tools", " a, ,b ,", &e, None).unwrap();
    assert_eq!(s.permissions.allow_tools, vec!["a", "b"]);
    s.apply_setting("permissions.mode", " Deny ", &e, None).unwrap();
    assert_eq!(s.permissions.mode, PermissionMode::DenyAll);
    s.apply_setting("compact.summary_model", "  ", &e, None).unwrap();
    assert_eq!(s.compact.summary_model, None);
    s.apply_setting("compact.summary_model", " small ", &e, None).unwrap();
    assert_eq!(s.compact.summary_model.as_deref(), Some("small"));
    s.apply_setting("fallback.chain", "openai:gpt-4o, deepseek:deepseek-chat", &e, None).unwrap();
    assert_eq!(s.api.fallback.chain.len(), 2);
    s.apply_setting("onboarding.completed", "true", &e, None).unwrap();
    assert!(!s.should_run_onboarding());
}

#[test]
fn setting_errors_leave_settings_unchanged() {
    let e = env(&[]);
    let mut s = Settings::defaults(&e, &None);
    let err = s.apply_setting("nope", "1", &e, None).unwrap_err();
    assert_eq!(err, SettingsError::UnknownSetting("nope".to_string()));
    assert_eq!(err.message(), "Unknown setting: nope");
    let err = s.apply_setting("permissions.mode", " SomeTimes ", &e, None).unwrap_err();
    assert_eq!(err.message(), "Unsupported permissions mode: sometimes");
    let err = s.apply_setting("provider", "acme", &e, None).unwrap_err();
    assert_eq!(err.message(), "Unsupported API provider: acme");
    assert_eq!(s.api.provider, ApiProvider::DeepSeek);
    let err = s.apply_setting("fallback.chain", "acme:x", &e, None).unwrap_err();
    assert_eq!(err.message(), "Unsupported fallback provider entry: acme:x");
    assert!(s.api.fallback.chain.is_empty());
}

#[test]
fn onboarding_completion_records_version() {
    let mut s = Settings::defaults(&env(&[]), &None);
    assert!(s.should_run_onboarding());
    s.mark_onboarding_complete();
    assert!(!s.should_run_onboarding());
    assert_eq!(s.onboarding.last_onboarding_version, "0.1.3");
}

#[test]
fn environment_selects_provider_defaults() {
    let e = env(&[("RUSTCODE_API_PROVIDER", " Ollama ")]);
    let s = Settings::defaults(&e, &None);
    assert_eq!(s.api.provider, ApiProvider::Ollama);
    assert_eq!(s.model, "llama3.1");
    assert_eq!(split_list(""), Vec::<String>::new());
}

#[test]
fn presets_and_protocols_parse() {
    for name in ["deepseek", "openai", "anthropic", "xai", "gemini", "dashscope", "openrouter", "ollama"] {
        let p = ApiProvider::parse(name).unwrap();
        assert_eq!(p.as_str(), name);
        assert_eq!(ApiProvider::parse(&format!("  {}  ", name.to_ascii_uppercase())), Some(p));
    }
    assert_eq!(ApiProtocol::parse("responses"), Some(ApiProtocol::Responses));
    assert_eq!(ApiProvider::XAI.default_protocol(), ApiProtocol::Responses);
    assert_eq!(ApiProvider::Anthropic.default_protocol(), ApiProtocol::Anthropic);
    assert_eq!(ApiProvider::Gemini.default_protocol(), ApiProtocol::OpenAi);
    assert_eq!(ApiProvider::Anthropic.default_base_url(), "https://api.anthropic.com");
}
