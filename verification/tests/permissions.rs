use rustcode::permissions::{
    wildcard_match, PermissionDecision, PermissionGate, PermissionMode, PermissionsSettings,
    SettingsPermissionGate,
};
use rustcode::runtime::RuntimeToolCall;

fn call(name: &str) -> RuntimeToolCall {
    RuntimeToolCall {
        id: "call-1".to_string(),
        name: name.to_string(),
        arguments: "{}".to_string(),
    }
}

#[test]
fn supports_global_and_prefix_rules() {
    let gate = SettingsPermissionGate::new(PermissionsSettings {
        mode: PermissionMode::DenyAll,
        allow_tools: vec!["mcp__*".to_string()],
        deny_tools: vec![],
        ask_tools: vec![],
    });

    assert_eq!(
        gate.evaluate_tool_call(&call("mcp__search")),
        PermissionDecision::Allow
    );
}

#[test]
fn deny_has_priority_over_ask_and_allow() {
    let gate = SettingsPermissionGate::new(PermissionsSettings {
        mode: PermissionMode::AllowAll,
        allow_tools: vec!["mcp__server__*".to_string()],
        deny_tools: vec!["mcp__server__read".to_string()],
        ask_tools: vec!["mcp__server__*".to_string()],
    });

    match gate.evaluate_tool_call(&call("mcp__server__read")) {
        PermissionDecision::Deny(reason) => assert!(reason.contains("deny_tools")),
        other => panic!("expected deny, got {:?}", other),
    }
}

#[test]
fn ask_has_priority_over_allow() {
    let gate = SettingsPermissionGate::new(PermissionsSettings {
        mode: PermissionMode::AllowAll,
        allow_tools: vec!["file_*".to_string()],
        deny_tools: vec![],
        ask_tools: vec!["file_read".to_string()],
    });

    match gate.evaluate_tool_call(&call("file_read")) {
        PermissionDecision::Ask(reason) => assert!(reason.contains("explicit approval")),
        other => panic!("expected ask, got {:?}", other),
    }
}

#[test]
fn supports_infix_wildcard_rules() {
    let gate = SettingsPermissionGate::new(PermissionsSettings {
        mode: PermissionMode::DenyAll,
        allow_tools: vec!["mcp__*__read".to_string()],
        deny_tools: vec![],
        ask_tools: vec![],
    });

    assert_eq!(
        gate.evaluate_tool_call(&call("mcp__filesystem__read")),
        PermissionDecision::Allow
    );
}

#[test]
fn wildcards_anchor_both_ends() {
    assert!(wildcard_match("a*b*c", "aXbYc"));
    assert!(!wildcard_match("a*b", "aXbY"));
    assert!(wildcard_match("*", ""));
    assert!(!wildcard_match("read", "readme"));
}

#[test]
fn added_rules_decide_and_mode_is_the_default() {
    let mut gate = SettingsPermissionGate::new(PermissionsSettings::default());
    assert_eq!(gate.evaluate_tool_call(&call("anything")), PermissionDecision::Allow);
    gate.add_deny_rule("shell");
    assert!(matches!(gate.evaluate_tool_call(&call("shell")), PermissionDecision::Deny(_)));
    gate.add_allow_rule("shell");
    assert_eq!(gate.evaluate_tool_call(&call("shell")), PermissionDecision::Allow);
}

#[test]
fn a_name_with_a_star_covers_itself() {
    let mut settings = PermissionsSettings::default();
    settings.mode = PermissionMode::DenyAll;
    let mut gate = SettingsPermissionGate::new(settings);
    gate.add_allow_rule("mcp__*__read");
    assert_eq!(gate.evaluate_tool_call(&call("mcp__*__read")), PermissionDecision::Allow);
    gate.add_deny_rule("a*b");
    assert!(matches!(gate.evaluate_tool_call(&call("a*b")), PermissionDecision::Deny(_)));
    let before = gate.settings().deny_tools.clone();
    gate.add_deny_rule("a*b");
    assert_eq!(gate.settings().deny_tools, before);
}
