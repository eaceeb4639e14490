use rustcode::api_config::EnvSnapshot;
use rustcode::settings::Settings;
use rustcode::system_prompt::build_system_prompt;

#[test]
fn includes_project_memory_when_present() {
    let settings = Settings::default();
    let memories = vec![("rustcode.md".to_string(), Some("memory block".to_string()))];
    let prompt = build_system_prompt(&settings, &EnvSnapshot::empty(), "/tmp/project", None, &memories);
    assert!(prompt.contains("memory block"));
}

#[test]
fn system_prompt_sections_in_order() {
    let mut settings = Settings::default();
    settings.model = "m1".to_string();
    let memories = vec![
        ("a.md".to_string(), Some("   ".to_string())),
        ("b.md".to_string(), None),
        ("c.md".to_string(), Some(" remember \n".to_string())),
        ("d.md".to_string(), Some("ignored".to_string())),
    ];
    let prompt = build_system_prompt(
        &settings,
        &EnvSnapshot::empty(),
        "/w",
        Some("  be careful ".to_string()),
        &memories,
    );
    assert!(prompt.starts_with("You are RustCode, a pragmatic coding assistant"));
    assert!(prompt.ends_with(
        "\n\nCurrent provider/model: deepseek/m1.\n\nWorking directory: /w.\n\nProject instructions:\nbe careful\n\nProject memory from c.md:\nremember"
    ));
    let bare = build_system_prompt(&settings, &EnvSnapshot::empty(), "/w", Some(" ".to_string()), &Vec::new());
    assert!(bare.ends_with("Working directory: /w."));
}
