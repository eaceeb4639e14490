use rustcode::api_config::EnvSnapshot;
use rustcode::doctor::{doctor_report, run_doctor_command, DoctorProbes, SkillsProbe};
use rustcode::settings::Settings;

fn env(vars: &[(&str, &str)]) -> EnvSnapshot {
    EnvSnapshot { vars: vars.iter().map(|(k, v)| (k.to_string(), v.to_string())).collect() }
}

fn probes(skills: SkillsProbe) -> DoctorProbes {
    DoctorProbes {
        executable: Some("/usr/bin/rustcode".to_string()),
        mcp_server_count: 0,
        plugin_dir_exists: true,
        installed_plugins: 2,
        skills_root: "/home/u/.rustcode/skills".to_string(),
        skills,
    }
}

#[test]
fn doctor_report_lists_checks_warnings_and_errors() {
    let e = env(&[]);
    let mut settings = Settings::defaults(&e, &Some("/home/u".to_string()));
    settings.plugins.plugin_dir = "/home/u/.rustcode/plugins".to_string();
    let report = doctor_report(
        &settings,
        &e,
        &probes(SkillsProbe::Failed { root_exists: true, error: "permission denied".to_string() }),
        false,
    );
    let sections: Vec<&str> = report.split("\n\n").collect();
    assert_eq!(sections.len(), 4);
    assert_eq!(sections[0], "Doctor report");
    assert!(sections[1].starts_with("OK:\n- Current target: "));
    assert!(sections[1].contains("\n- Working directory: .\n- Executable: /usr/bin/rustcode"));
    assert!(sections[1].contains("\n- Plugin directory exists: /home/u/.rustcode/plugins"));
    assert!(sections[1].contains("\n- Installed plugins: 2"));
    assert!(sections[1].ends_with("\n- Session persistence: auto_restore=true persist_transcript=true"));
    assert!(sections[2].starts_with("Warnings:\n- Onboarding is not completed.\n- API key is not configured for provider "));
    assert!(sections[2].ends_with("\n- git is not available on PATH.\n- No MCP servers are configured."));
    assert_eq!(sections[3], "Errors:\n- Skill discovery failed: permission denied");
}

#[test]
fn doctor_report_without_failures_has_no_errors_section() {
    let e = env(&[("DEEPSEEK_API_KEY", "sk-test")]);
    let mut settings = Settings::defaults(&e, &None);
    settings.onboarding.has_completed_onboarding = true;
    let mut p = probes(SkillsProbe::Found(3));
    p.mcp_server_count = 1;
    let report = doctor_report(&settings, &e, &p, true);
    assert!(report.contains("- Onboarding completed."));
    assert!(report.contains("- API key configuration looks present."));
    assert!(report.contains("- git is available on PATH."));
    assert!(report.contains("- Configured MCP servers: 1"));
    assert!(report.contains("- Discovered local skills: 3 under /home/u/.rustcode/skills"));
    assert!(!report.contains("Warnings:"));
    assert!(!report.contains("Errors:"));
}

#[test]
fn missing_skills_directory_gives_two_warnings() {
    let e = env(&[]);
    let settings = Settings::defaults(&e, &None);
    let report = doctor_report(
        &settings,
        &e,
        &probes(SkillsProbe::Failed { root_exists: false, error: "not found".to_string() }),
        true,
    );
    assert!(report.contains(
        "- Skills directory does not exist: /home/u/.rustcode/skills\n- Skill discovery skipped: not found"
    ));
    assert!(!report.contains("Errors:"));
    let found_none = doctor_report(&settings, &e, &probes(SkillsProbe::Found(0)), true);
    assert!(found_none.contains("- No local skills found under /home/u/.rustcode/skills."));
}

#[test]
fn run_doctor_command_reports_on_git_either_way() {
    let e = env(&[]);
    let settings = Settings::defaults(&e, &None);
    let report = run_doctor_command(&settings, &e, &probes(SkillsProbe::Found(1)));
    assert!(report.starts_with("Doctor report\n\nOK:\n- "));
    assert!(report.contains("git is available on PATH.") || report.contains("git is not available on PATH."));
}
