use rustcode::commands::{
    builtin_command_specs, SlashCommandKind, SlashCommandRegistry, SlashCommandSource,
    SlashCommandSpec,
};
use rustcode::markdown::{
    first_non_empty_line, format_args_suffix, frontmatter_value, parse_markdown_command,
    render_session_plan, skill_from_markdown, split_frontmatter,
};
use rustcode::slash::{
    empty_as_default, parse_slash_command, process_slash_input, render_markdown_command,
    InputProcessor, LocalCommand, McpSlashAction, PlanSlashAction, ProcessedInput,
};
use rustcode::status::format_help_text;

fn builtins() -> SlashCommandRegistry {
    SlashCommandRegistry::load(Vec::new())
}

fn markdown_command(name: &str, template: &str) -> SlashCommandSpec {
    SlashCommandSpec {
        name: name.to_string(),
        aliases: Vec::new(),
        description: format!("Run {} command", name),
        argument_hint: None,
        source: SlashCommandSource::Project,
        kind: SlashCommandKind::FileBacked {
            template: template.to_string(),
        },
    }
}

#[test]
fn parses_basic_slash_commands() {
    assert_eq!(parse_slash_command("/help"), Some(LocalCommand::Help));
    assert_eq!(parse_slash_command("/status"), Some(LocalCommand::Status));
    assert_eq!(
        parse_slash_command("/branch"),
        Some(LocalCommand::Branch { message_id: None })
    );
    assert_eq!(
        parse_slash_command("/compact keep risks"),
        Some(LocalCommand::Compact {
            instructions: Some("keep risks".to_string()),
        })
    );
}

#[test]
fn init_is_prompt_backed() {
    let processed = process_slash_input("/init", &builtins(), "/tmp/project");
    assert!(matches!(processed, Some(ProcessedInput::Prompt(prompt)) if prompt.contains("rustcode.md")));
}

#[test]
fn unknown_slash_command_is_error() {
    assert!(matches!(
        process_slash_input("/missing", &builtins(), "/tmp/project"),
        Some(ProcessedInput::Error(_))
    ));
}

#[test]
fn parses_skill_frontmatter() {
    let raw = "---\nname: example\ndescription: sample\n---\n# Title\n\nBody";
    let (frontmatter, body) = split_frontmatter(raw);
    assert_eq!(
        frontmatter_value(&frontmatter, "name").as_deref(),
        Some("example")
    );
    assert!(body.contains("Body"));
}

#[test]
fn falls_back_to_first_non_heading_line() {
    assert_eq!(
        first_non_empty_line("# Title\n\nSummary line\nMore"),
        Some("Summary line".to_string())
    );
}

#[test]
fn renders_raw_plan_text() {
    let plan = "# Current Plan\n\n- inspect runtime\n- update slash command".to_string();
    assert_eq!(render_session_plan(&plan), plan);
}

#[test]
fn unknown_command_error_names_lowercased_command() {
    assert_eq!(
        process_slash_input("  /Missing now ", &builtins(), "."),
        Some(ProcessedInput::Error("Unknown slash command: /missing".to_string()))
    );
}

#[test]
fn plain_text_is_not_a_slash_command() {
    assert_eq!(process_slash_input("hello /help", &builtins(), "."), None);
    let processor = InputProcessor::new();
    assert_eq!(
        processor.process("  just a prompt \n", &builtins(), "."),
        ProcessedInput::Prompt("just a prompt".to_string())
    );
}

#[test]
fn aliases_and_case_select_builtins() {
    assert_eq!(parse_slash_command("/H"), Some(LocalCommand::Help));
    assert_eq!(
        parse_slash_command("/fork  msg-7  "),
        Some(LocalCommand::Branch {
            message_id: Some("msg-7".to_string())
        })
    );
    assert_eq!(
        parse_slash_command("/rewind-files u1"),
        Some(LocalCommand::Rewind {
            message_id: Some("u1".to_string()),
            files_only: true
        })
    );
    assert_eq!(parse_slash_command("/review"), None);
}

#[test]
fn prompt_commands_fill_in_defaults() {
    match process_slash_input("/review", &builtins(), ".") {
        Some(ProcessedInput::Prompt(p)) => assert!(p.ends_with("Scope: current workspace or diff")),
        other => panic!("unexpected {:?}", other),
    }
    match process_slash_input("/fix the crash", &builtins(), ".") {
        Some(ProcessedInput::Prompt(p)) => assert!(p.ends_with("verify it: the crash")),
        other => panic!("unexpected {:?}", other),
    }
    assert_eq!(empty_as_default("  ", "none"), "none");
    assert_eq!(empty_as_default(" x ", "none"), " x ");
}

#[test]
fn markdown_commands_render_templates_but_never_shadow_builtins() {
    let registry = SlashCommandRegistry::load(vec![
        markdown_command("help", "shadow"),
        markdown_command("explain2", "Explain $ARGUMENTS in $CWD ($RUSTCODE_MD)"),
    ]);
    assert_eq!(registry.all().len(), builtin_command_specs().len() + 1);
    assert_eq!(parse_slash_command("/help"), Some(LocalCommand::Help));
    assert_eq!(
        process_slash_input("/help", &registry, "/w"),
        Some(ProcessedInput::LocalCommand(LocalCommand::Help))
    );
    assert_eq!(
        process_slash_input("/explain2 main.rs", &registry, "/w"),
        Some(ProcessedInput::Prompt(
            "Explain main.rs in /w (/w/rustcode.md)".to_string()
        ))
    );
    assert_eq!(render_markdown_command("$CWD|$RUSTCODE_MD", "", "/w/"), "/w/|/w/rustcode.md");
}

#[test]
fn init_flags_are_parsed_from_words() {
    let registry = SlashCommandRegistry::load(Vec::new());
    assert!(registry.find("INIT").is_some());
    assert!(registry.find("nope").is_none());
    assert_eq!(registry.find("fork").map(|c| c.name.clone()), Some("branch".to_string()));
}

#[test]
fn markdown_command_needs_a_name_and_a_body() {
    let raw = "---\ndescription: \"Explain target\"\nargument-hint: <target>\n---\nExplain $ARGUMENTS";
    let command = parse_markdown_command(raw, "explain", SlashCommandSource::Project).unwrap();
    assert_eq!(command.name, "explain");
    assert_eq!(command.description, "Explain target");
    assert_eq!(command.argument_hint.as_deref(), Some("<target>"));
    assert_eq!(
        command.kind,
        SlashCommandKind::FileBacked {
            template: "Explain $ARGUMENTS".to_string()
        }
    );
    assert!(parse_markdown_command(raw, "  ", SlashCommandSource::User).is_none());
    assert!(parse_markdown_command("---\nx: y\n---\n  \n", "empty", SlashCommandSource::User).is_none());
    let plain = parse_markdown_command("No frontmatter", "plain", SlashCommandSource::User).unwrap();
    assert_eq!(plain.description, "Run plain command");
}

#[test]
fn frontmatter_without_closing_fence_has_no_body() {
    let (front, body) = split_frontmatter("  ---\na: 1\nb: 2");
    assert_eq!(front, "a: 1\nb: 2");
    assert_eq!(body, "");
    assert_eq!(frontmatter_value("a:1\nkey : \"v:w\"", "key").as_deref(), Some("v:w"));
    assert_eq!(frontmatter_value("novalue\nk2: x", "k"), None);
}

#[test]
fn skills_fall_back_to_directory_name_and_body() {
    let skill = skill_from_markdown("# Heading\n\n  First line  \n", "tools", "/s/tools".to_string());
    assert_eq!(skill.name, "tools");
    assert_eq!(skill.description, "First line");
    let empty = skill_from_markdown("", "x", "/s/x".to_string());
    assert_eq!(empty.description, "No description available.");
}

#[test]
fn args_suffix_joins_with_spaces() {
    assert_eq!(format_args_suffix(&Vec::new()), "");
    assert_eq!(
        format_args_suffix(&vec!["-y".to_string(), "server".to_string()]),
        " -y server"
    );
}

#[test]
fn help_lists_every_command_with_source_and_kind() {
    let text = format_help_text(&builtins());
    let lines: Vec<&str> = text.lines().collect();
    assert_eq!(lines[0], "Available slash commands:");
    assert_eq!(lines[1], "/help  Show available commands [builtin:native]");
    assert!(lines.contains(&"/review [scope]  Review the current change or target for correctness and risk [prompt:prompt]"));
    assert_eq!(lines.len(), builtin_command_specs().len() + 1);
}

#[test]
fn discovers_project_markdown_command() {
    let raw = "---\ndescription: Explain target\nargument-hint: <target>\n---\nExplain $ARGUMENTS";
    let commands: Vec<_> = parse_markdown_command(raw, "explain", SlashCommandSource::Project)
        .into_iter()
        .collect();
    assert_eq!(commands.len(), 1);
    assert_eq!(commands[0].name, "explain");
    assert_eq!(commands[0].description, "Explain target");
}

#[test]
fn documented_slash_commands_are_known() {
    for c in ["/init", "/plan", "/model", "/clear", "/fix", "/review", "/status", "/mcp"] {
        let r = process_slash_input(c, &builtins(), "/tmp/empty");
        assert!(matches!(r, Some(x) if !matches!(x, ProcessedInput::Error(_))), "{}", c);
    }
}

#[test]
fn plan_and_mcp_arguments() {
    assert_eq!(
        process_slash_input("/plan", &builtins(), "."),
        Some(ProcessedInput::LocalCommand(LocalCommand::Plan { action: PlanSlashAction::Enter { prompt: None } }))
    );
    assert_eq!(
        process_slash_input("/plan design the cache", &builtins(), "."),
        Some(ProcessedInput::LocalCommand(LocalCommand::Plan {
            action: PlanSlashAction::Enter { prompt: Some("design the cache".to_string()) }
        }))
    );
    assert_eq!(
        process_slash_input("/plan exit", &builtins(), "."),
        Some(ProcessedInput::LocalCommand(LocalCommand::Plan { action: PlanSlashAction::Exit }))
    );
    assert_eq!(
        process_slash_input("/mcp add fs npx server --root .", &builtins(), "."),
        Some(ProcessedInput::LocalCommand(LocalCommand::Mcp {
            action: McpSlashAction::Add {
                name: "fs".to_string(),
                command: "npx".to_string(),
                args: vec!["server".to_string(), "--root".to_string(), ".".to_string()],
            }
        }))
    );
    assert_eq!(
        process_slash_input("/mcp stop fs", &builtins(), "."),
        Some(ProcessedInput::LocalCommand(LocalCommand::Mcp { action: McpSlashAction::Stop { name: "fs".to_string() } }))
    );
    assert_eq!(
        process_slash_input("/mcp stop", &builtins(), "."),
        Some(ProcessedInput::LocalCommand(LocalCommand::Mcp { action: McpSlashAction::Help }))
    );
}
