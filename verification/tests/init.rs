use rustcode::init::{build_rustcode_md, common_commands, plan_init, top_level_structure, InitMode, InitStep, ProjectType};
use rustcode::permissions::{PermissionEvent, PermissionEventStore};
use rustcode::query::QueryLoop;
use rustcode::runtime::RuntimeMessage;

/// Carries out an init step on a file held in memory.
fn apply(file: &mut Option<String>, step: InitStep) -> String {
    match step {
        InitStep::Report(outcome) => outcome.message,
        InitStep::Write { text, outcome } => {
            *file = Some(text);
            outcome.message
        }
    }
}

fn content() -> String {
    build_rustcode_md("Rust", "/work", &common_commands(ProjectType::Rust, false), &top_level_structure(None))
}

#[test]
fn init_creates_rustcode_md_without_overwriting() {
    let mut file: Option<String> = None;
    let first = { let step = plan_init("/work", file.clone(), InitMode::Create, &content()); apply(&mut file, step) };
    assert_eq!(first, "Created /work/rustcode.md.");
    assert!(file.is_some());
    file = Some("custom".to_string());
    let second = { let step = plan_init("/work", file.clone(), InitMode::Create, &content()); apply(&mut file, step) };
    assert!(second.contains("already exists"));
    assert_eq!(file.as_deref(), Some("custom"));
}

#[test]
fn init_force_and_append_update_existing_file() {
    let mut file = Some("custom".to_string());
    let appended = { let step = plan_init("/work", file.clone(), InitMode::Append, &content()); apply(&mut file, step) };
    assert_eq!(appended, "Appended /work/rustcode.md.");
    let text = file.clone().unwrap();
    assert!(text.contains("rustcode init refresh"));
    assert!(text.starts_with("custom\n\n<!-- rustcode init refresh -->\n\n# rustcode.md"));
    { let step = plan_init("/work", file.clone(), InitMode::Force, &content()); apply(&mut file, step) };
    assert!(file.unwrap().starts_with("# rustcode.md"));
}

#[test]
fn rustcode_md_lists_commands_and_structure() {
    let structure = top_level_structure(Some(vec![
        "src".to_string(),
        ".github".to_string(),
        "target".to_string(),
        "Cargo.toml".to_string(),
        ".gitignore".to_string(),
    ]));
    assert_eq!(structure, "- `Cargo.toml`\n- `src`");
    assert_eq!(top_level_structure(Some(vec!["node_modules".to_string()])), "- Add key directories and files here");
    let md = build_rustcode_md("Rust", "/work", &common_commands(ProjectType::Rust, false), &structure);
    assert!(md.starts_with("# rustcode.md\n\nThis file provides guidance to RustCode"));
    assert!(md.contains("- Project type: Rust\n- Workspace root: /work\n\n## Build and Test Commands\n\n- `cargo check`"));
    assert!(md.contains("## Repository Structure\n\n- `Cargo.toml`\n- `src`\n\n## Coding Conventions"));
    assert!(common_commands(ProjectType::JavaScript, true).starts_with("- `pnpm install`"));
    assert_eq!(common_commands(ProjectType::Go, false), "- `go test ./...` - run Go tests");
}

#[test]
fn structure_lists_at_most_twelve_entries() {
    let names: Vec<String> = (0..20).map(|i| format!("d{:02}", 19 - i)).collect();
    let structure = top_level_structure(Some(names));
    let lines: Vec<&str> = structure.lines().collect();
    assert_eq!(lines.len(), 12);
    assert_eq!(lines[0], "- `d08`");
    assert_eq!(lines[11], "- `d19`");
}

#[test]
fn permission_log_keeps_the_latest_fifty() {
    let mut events: Vec<PermissionEvent> = Vec::new();
    for i in 0..55 {
        events = PermissionEventStore::append(
            events,
            PermissionEvent { tool_name: format!("t{}", i), decision: "allow".to_string(), reason: String::new(), timestamp: i },
        );
    }
    assert_eq!(events.len(), 50);
    assert_eq!(events[0].tool_name, "t5");
    assert_eq!(events[49].tool_name, "t54");
}

#[test]
fn query_loop_hands_out_its_parts() {
    let l = QueryLoop::new("gateway", 7u8, true);
    assert_eq!(*l.gateway(), "gateway");
    assert_eq!(*l.tool_executor(), 7);
    assert!(*l.permission_gate());
    let (turn, _) = l.submit_turn(&Vec::new(), RuntimeMessage::user("hi".to_string()));
    assert_eq!(turn.history().len(), 1);
}
