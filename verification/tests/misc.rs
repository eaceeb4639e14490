use rustcode::paths::settings_path_under;
use rustcode::diff::{diff_needs_detail, diff_report};
use rustcode::agents::AgentTaskStatus;
use rustcode::api_config::EnvSnapshot;
use rustcode::compact::CompactSettings;
use rustcode::desktop::{project_name_from_root, session_status_label, short_id, task_status_label};
use rustcode::file_history::{
    is_ignored_dir_name, is_ignored_relative_path, origin_of_tool, FileHistoryOrigin,
    FileHistoryStore,
};
use rustcode::ids::new_uuid;
use rustcode::markdown::{mcp_help_text, plan_help_text, plugin_help_text, skills_help_text};
use rustcode::session::SessionStatus;
use rustcode::settings::Settings;
use rustcode::status::{format_compact_status, format_status_text};

#[test]
fn project_names_come_from_the_last_component() {
    assert_eq!(project_name_from_root(Some("/home/u/app")), "app");
    assert_eq!(project_name_from_root(Some("/home/u/app/")), "app");
    assert_eq!(project_name_from_root(Some("/home/u/app/.")), "app");
    assert_eq!(project_name_from_root(Some("/home/u/..")), "rustcode");
    assert_eq!(project_name_from_root(Some("/")), "rustcode");
    assert_eq!(project_name_from_root(None), "rustcode");
    assert_eq!(short_id("0123456789"), "01234567");
    assert_eq!(short_id("abc"), "abc");
    assert_eq!(session_status_label(SessionStatus::AwaitingApproval), "awaiting_approval");
    assert_eq!(task_status_label(AgentTaskStatus::Cancelled), "cancelled");
}

#[test]
fn file_history_paths_and_filters() {
    let store = FileHistoryStore::for_project(Some("/p"), None).unwrap();
    assert_eq!(store.session_dir("s1"), "/p/rustcode/state/file-history/s1");
    assert!(FileHistoryStore::for_project(None, None).is_err());
    assert!(is_ignored_relative_path("rustcode/state/x.json"));
    assert!(!is_ignored_relative_path("src/rustcode/state/x"));
    assert!(is_ignored_dir_name("Node_Modules"));
    assert!(!is_ignored_dir_name("src"));
    assert_eq!(origin_of_tool("file_edit"), FileHistoryOrigin::FileEdit);
    assert_eq!(origin_of_tool("file_write"), FileHistoryOrigin::FileWrite);
}

#[test]
fn help_texts_list_subcommands() {
    assert!(mcp_help_text().starts_with("/mcp commands:\n- /mcp list"));
    assert!(plugin_help_text().ends_with("- /plugin update --all"));
    assert_eq!(skills_help_text().lines().count(), 4);
    assert!(plan_help_text().starts_with("/plan enables plan mode."));
}

#[test]
fn status_texts_show_settings() {
    assert_eq!(
        format_compact_status(&CompactSettings::default()),
        "Compact settings: enabled=true auto=true reactive=true micro=true turns=24 tokens=32000 preserve_recent_turns=4 reserve=4096"
    );
    let s = Settings::defaults(&EnvSnapshot::empty(), &None);
    let text = format_status_text(&s, &EnvSnapshot::empty(), Some("s-1"), 3, false, None, true, None);
    assert!(text.starts_with("Provider: deepseek\nModel: deepseek-chat\nProtocol: openai\nFallback: off (0)\nSession: s-1\nMessages: 3\nPending approval: no\nPlan mode: on\nCurrent plan: none\n"));
    assert!(text.ends_with("current_tokens=unknown"));
}

#[test]
fn fresh_ids_are_hyphenated_uuids() {
    let a = new_uuid();
    let b = new_uuid();
    assert_eq!(a.len(), 36);
    assert_ne!(a, b);
    assert_eq!(a.matches('-').count(), 4);
}

#[test]
fn diff_report_covers_each_git_state() {
    assert_eq!(diff_report(false, "", true, ""), "Current working directory is not a git repository.");
    assert_eq!(diff_report(true, "  \n", false, ""), "Working tree is clean.");
    assert!(!diff_needs_detail(true, " "));
    assert!(diff_needs_detail(true, " M a.rs\n"));
    assert_eq!(diff_report(true, " M a.rs\n", false, "  "), "Changed files:\nM a.rs");
    assert_eq!(
        diff_report(true, " M a.rs\n", false, " a.rs | 2 +-\n"),
        "Changed files:\nM a.rs\n\nDiff stat:\na.rs | 2 +-"
    );
    assert_eq!(
        diff_report(true, "?? b.rs", true, "+x\n"),
        "Changed files:\n?? b.rs\n\nPatch:\n+x"
    );
}

#[test]
fn settings_path_follows_the_active_profile() {
    let home = Some("/home/u".to_string());
    assert_eq!(settings_path_under(&home, None), "/home/u/.rustcode/settings.json");
    assert_eq!(settings_path_under(&home, Some("  \n")), "/home/u/.rustcode/settings.json");
    assert_eq!(settings_path_under(&home, Some("work\n")), "/home/u/.rustcode/profiles/work.json");
}
