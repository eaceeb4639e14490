//! The `/doctor` report: what is set up, what is missing, and what failed.
//! What can only be learnt from the machine (the executable's path, the
//! MCP servers, the plugin directory, the skills) comes in as probes; the
//! report is put together here.

use vstd::prelude::*;
use crate::api_config::{
    effective_protocol, effective_provider, env_view, label_spec, protocol_name, resolve_key_spec,
    ApiProvider, EnvSnapshot,
};
use crate::numbers::{decimal, usize_to_string};
use crate::settings::Settings;
use crate::status::bool_text;
use crate::text::{concat, join, join_strs, opt_view, views};

verus! {

/// What looking for local skills found.
#[derive(Debug, Clone, PartialEq, Eq)]
pub enum SkillsProbe {
    /// Discovery succeeded and found this many skills.
    Found(usize),
    /// Discovery failed with `error`; `root_exists` tells whether the
    /// skills directory exists.
    Failed { root_exists: bool, error: String },
}

/// What the machine says, for the report.
#[derive(Debug, Clone)]
pub struct DoctorProbes {
    pub executable: Option<String>,
    pub mcp_server_count: usize,
    pub plugin_dir_exists: bool,
    pub installed_plugins: usize,
    pub skills_root: String,
    pub skills: SkillsProbe,
}

/// `v` with `x` added when `c` holds.
pub open spec fn push_if(v: Seq<Seq<char>>, c: bool, x: Seq<char>) -> Seq<Seq<char>> {
    if c {
        v.push(x)
    } else {
        v
    }
}

/// No API key is found, and the provider needs one.
pub open spec fn key_missing(s: Settings, env: Seq<(Seq<char>, Seq<char>)>) -> bool {
    let p = effective_provider(s.api, env);
    &&& resolve_key_spec(env, p, effective_protocol(s.api, env), opt_view(s.api.api_key)) is None
    &&& p != ApiProvider::Ollama
}

/// The provider's label in the report.
pub open spec fn doctor_label(s: Settings, env: Seq<(Seq<char>, Seq<char>)>) -> Seq<char> {
    label_spec(effective_provider(s.api, env), opt_view(s.api.custom_provider_name))
}

/// The first line of the report: provider, model and protocol.
pub open spec fn target_line(s: Settings, env: Seq<(Seq<char>, Seq<char>)>) -> Seq<char> {
    "Current target: "@ + doctor_label(s, env) + "/"@ + s.model@ + " ("@ + protocol_name(
        effective_protocol(s.api, env),
    ) + ")"@
}

/// The checks on the setup that passed.
pub open spec fn ok_setup(
    s: Settings,
    env: Seq<(Seq<char>, Seq<char>)>,
    p: DoctorProbes,
    git: bool,
) -> Seq<Seq<char>> {
    let v0 = seq![target_line(s, env), "Working directory: "@ + s.working_dir@];
    let v1 = match p.executable {
        Some(e) => v0.push("Executable: "@ + e@),
        None => v0,
    };
    let v2 = push_if(v1, s.onboarding.has_completed_onboarding, "Onboarding completed."@);
    let v3 = push_if(v2, !key_missing(s, env), "API key configuration looks present."@);
    push_if(v3, git, "git is available on PATH."@)
}

/// The checks that passed, in report order.
pub open spec fn doctor_ok(
    s: Settings,
    env: Seq<(Seq<char>, Seq<char>)>,
    p: DoctorProbes,
    git: bool,
) -> Seq<Seq<char>> {
    let v4 = ok_setup(s, env, p, git);
    let v5 = push_if(
        v4,
        p.mcp_server_count > 0,
        "Configured MCP servers: "@ + decimal(p.mcp_server_count as nat),
    );
    let v6 = push_if(v5, p.plugin_dir_exists, "Plugin directory exists: "@ + s.plugins.plugin_dir@);
    let v7 = v6.push("Installed plugins: "@ + decimal(p.installed_plugins as nat));
    let v8 = match p.skills {
        SkillsProbe::Found(n) => push_if(
            v7,
            n > 0,
            "Discovered local skills: "@ + decimal(n as nat) + " under "@ + p.skills_root@,
        ),
        SkillsProbe::Failed { .. } => v7,
    };
    v8.push(
        "Session persistence: auto_restore="@ + bool_text(s.session.auto_restore_last_session)
            + " persist_transcript="@ + bool_text(s.session.persist_transcript),
    )
}

/// The warnings, in report order.
pub open spec fn doctor_warnings(
    s: Settings,
    env: Seq<(Seq<char>, Seq<char>)>,
    p: DoctorProbes,
    git: bool,
) -> Seq<Seq<char>> {
    let w1 = push_if(Seq::empty(), !s.onboarding.has_completed_onboarding, "Onboarding is not completed."@);
    let w2 = push_if(
        w1,
        key_missing(s, env),
        "API key is not configured for provider "@ + doctor_label(s, env) + "."@,
    );
    let w3 = push_if(w2, !git, "git is not available on PATH."@);
    let w4 = push_if(w3, p.mcp_server_count == 0, "No MCP servers are configured."@);
    let w5 = push_if(
        w4,
        !p.plugin_dir_exists,
        "Plugin directory does not exist yet: "@ + s.plugins.plugin_dir@,
    );
    match p.skills {
        SkillsProbe::Found(n) => push_if(w5, n == 0, "No local skills found under "@ + p.skills_root@ + "."@),
        SkillsProbe::Failed { root_exists, error } => if root_exists {
            w5
        } else {
            w5.push("Skills directory does not exist: "@ + p.skills_root@).push(
                "Skill discovery skipped: "@ + error@,
            )
        },
    }
}

/// The failures, in report order.
pub open spec fn doctor_errors(p: DoctorProbes) -> Seq<Seq<char>> {
    match p.skills {
        SkillsProbe::Failed { root_exists, error } => if root_exists {
            seq!["Skill discovery failed: "@ + error@]
        } else {
            Seq::empty()
        },
        SkillsProbe::Found(_) => Seq::empty(),
    }
}

/// A titled section of the report, or nothing for an empty list.
pub open spec fn section(title: Seq<char>, items: Seq<Seq<char>>) -> Seq<Seq<char>> {
    if items.len() == 0 {
        Seq::empty()
    } else {
        seq![title + ":\n- "@ + join(items, "\n- "@)]
    }
}

/// The report: its heading, then the passed checks, the warnings and the
/// failures, each as a list, the parts separated by blank lines.
pub open spec fn doctor_report_spec(
    s: Settings,
    env: Seq<(Seq<char>, Seq<char>)>,
    p: DoctorProbes,
    git: bool,
) -> Seq<char> {
    join(
        seq!["Doctor report"@] + section("OK"@, doctor_ok(s, env, p, git)) + section(
            "Warnings"@,
            doctor_warnings(s, env, p, git),
        ) + section("Errors"@, doctor_errors(p)),
        "\n\n"@,
    )
}

fn push_text(v: &mut Vec<String>, t: String)
    ensures
        views(final(v)@) == views(old(v)@).push(t@),
{
    let ghost before = views(v@);
    v.push(t);
    assert(views(v@) =~= before.push(t@));
}

fn add_section(sections: &mut Vec<String>, title: &str, items: &Vec<String>)
    ensures
        views(final(sections)@) == views(old(sections)@) + section(title@, views(items@)),
{
    proof {
        reveal_strlit(":\n- ");
        reveal_strlit("\n- ");
    }
    if items.len() == 0 {
        assert(views(sections@) =~= views(sections@) + Seq::<Seq<char>>::empty());
        return;
    }
    let body = join_strs(items, "\n- ");
    let mut t = String::from_str(title);
    t.append(":\n- ");
    t.append(body.as_str());
    let ghost before = views(sections@);
    push_text(sections, t);
    assert(views(sections@) =~= before + section(title@, views(items@)));
}

fn key_is_missing(settings: &Settings, env: &EnvSnapshot) -> (b: bool)
    ensures
        b == key_missing(*settings, env_view(*env)),
{
    settings.api.get_api_key(env).is_none() && settings.api.provider(env) != ApiProvider::Ollama
}

fn target_text(settings: &Settings, env: &EnvSnapshot) -> (t: String)
    ensures
        t@ == target_line(*settings, env_view(*env)),
{
    let label = settings.api.provider_label(env);
    let protocol = settings.api.protocol(env);
    let mut t = String::from_str("Current target: ");
    t.append(label.as_str());
    t.append("/");
    t.append(settings.model.as_str());
    t.append(" (");
    t.append(protocol.as_str());
    t.append(")");
    t
}

fn setup_lines(settings: &Settings, env: &EnvSnapshot, probes: &DoctorProbes, git: bool) -> (v: Vec<
    String,
>)
    ensures
        views(v@) == ok_setup(*settings, env_view(*env), *probes, git),
{
    let mut ok: Vec<String> = Vec::new();
    push_text(&mut ok, target_text(settings, env));
    push_text(&mut ok, concat("Working directory: ", settings.working_dir.as_str()));
    assert(views(ok@) =~= seq![
        target_line(*settings, env_view(*env)),
        "Working directory: "@ + settings.working_dir@,
    ]);
    match &probes.executable {
        Some(x) => push_text(&mut ok, concat("Executable: ", x.as_str())),
        None => {},
    }
    if !settings.should_run_onboarding() {
        push_text(&mut ok, String::from_str("Onboarding completed."));
    }
    if !key_is_missing(settings, env) {
        push_text(&mut ok, String::from_str("API key configuration looks present."));
    }
    if git {
        push_text(&mut ok, String::from_str("git is available on PATH."));
    }
    ok
}

fn ok_lines(settings: &Settings, env: &EnvSnapshot, probes: &DoctorProbes, git: bool) -> (v: Vec<
    String,
>)
    ensures
        views(v@) == doctor_ok(*settings, env_view(*env), *probes, git),
{
    let mut ok = setup_lines(settings, env, probes, git);
    if probes.mcp_server_count > 0 {
        let n = usize_to_string(probes.mcp_server_count);
        push_text(&mut ok, concat("Configured MCP servers: ", n.as_str()));
    }
    if probes.plugin_dir_exists {
        push_text(&mut ok, concat("Plugin directory exists: ", settings.plugins.plugin_dir.as_str()));
    }
    let n = usize_to_string(probes.installed_plugins);
    push_text(&mut ok, concat("Installed plugins: ", n.as_str()));
    match &probes.skills {
        SkillsProbe::Found(count) => {
            if *count > 0 {
                let mut o = String::from_str("Discovered local skills: ");
                o.append(usize_to_string(*count).as_str());
                o.append(" under ");
                o.append(probes.skills_root.as_str());
                push_text(&mut ok, o);
            }
        },
        SkillsProbe::Failed { .. } => {},
    }
    let mut s = String::from_str("Session persistence: auto_restore=");
    s.append(crate::status::bool_str(settings.session.auto_restore_last_session));
    s.append(" persist_transcript=");
    s.append(crate::status::bool_str(settings.session.persist_transcript));
    push_text(&mut ok, s);
    ok
}

fn warning_lines(settings: &Settings, env: &EnvSnapshot, probes: &DoctorProbes, git: bool) -> (v: Vec<
    String,
>)
    ensures
        views(v@) == doctor_warnings(*settings, env_view(*env), *probes, git),
{
    let mut warnings: Vec<String> = Vec::new();
    assert(views(warnings@) =~= Seq::<Seq<char>>::empty());
    if settings.should_run_onboarding() {
        push_text(&mut warnings, String::from_str("Onboarding is not completed."));
    }
    if key_is_missing(settings, env) {
        let label = settings.api.provider_label(env);
        let mut w = String::from_str("API key is not configured for provider ");
        w.append(label.as_str());
        w.append(".");
        push_text(&mut warnings, w);
    }
    if !git {
        push_text(&mut warnings, String::from_str("git is not available on PATH."));
    }
    if probes.mcp_server_count == 0 {
        push_text(&mut warnings, String::from_str("No MCP servers are configured."));
    }
    if !probes.plugin_dir_exists {
        push_text(
            &mut warnings,
            concat("Plugin directory does not exist yet: ", settings.plugins.plugin_dir.as_str()),
        );
    }
    match &probes.skills {
        SkillsProbe::Found(count) => {
            if *count == 0 {
                let mut w = String::from_str("No local skills found under ");
                w.append(probes.skills_root.as_str());
                w.append(".");
                push_text(&mut warnings, w);
            }
        },
        SkillsProbe::Failed { root_exists, error } => {
            if !*root_exists {
                push_text(
                    &mut warnings,
                    concat("Skills directory does not exist: ", probes.skills_root.as_str()),
                );
                push_text(&mut warnings, concat("Skill discovery skipped: ", error.as_str()));
            }
        },
    }
    warnings
}

fn error_lines(probes: &DoctorProbes) -> (v: Vec<String>)
    ensures
        views(v@) == doctor_errors(*probes),
{
    let mut errors: Vec<String> = Vec::new();
    assert(views(errors@) =~= Seq::<Seq<char>>::empty());
    match &probes.skills {
        SkillsProbe::Failed { root_exists, error } => {
            if *root_exists {
                push_text(&mut errors, concat("Skill discovery failed: ", error.as_str()));
                assert(views(errors@) =~= seq!["Skill discovery failed: "@ + error@]);
            }
        },
        SkillsProbe::Found(_) => {},
    }
    errors
}

/// The report for the given probes and whether `git` is on the `PATH`.
pub fn doctor_report(settings: &Settings, env: &EnvSnapshot, probes: &DoctorProbes, git_available: bool) -> (r: String)
    ensures
        r@ == doctor_report_spec(*settings, env_view(*env), *probes, git_available),
{
    proof {
        reveal_strlit("Doctor report");
    }
    let ok = ok_lines(settings, env, probes, git_available);
    let warnings = warning_lines(settings, env, probes, git_available);
    let errors = error_lines(probes);
    let mut sections: Vec<String> = Vec::new();
    push_text(&mut sections, String::from_str("Doctor report"));
    assert(views(sections@) =~= seq!["Doctor report"@]);
    add_section(&mut sections, "OK", &ok);
    add_section(&mut sections, "Warnings", &warnings);
    add_section(&mut sections, "Errors", &errors);
    join_strs(&sections, "\n\n")
}

/// Calls `which::which("git")` and tells whether it found the program.
/// What it finds depends on `PATH` and on the file system, so nothing is
/// stated of the result.
#[verifier::external_body]
pub(crate) fn git_on_path() -> (found: bool) {
    which::which("git").is_ok()
}

/// The `/doctor` report, with `git` looked up on the `PATH`.
pub fn run_doctor_command(settings: &Settings, env: &EnvSnapshot, probes: &DoctorProbes) -> (r: String)
    ensures
        exists|git: bool| r@ == doctor_report_spec(*settings, env_view(*env), *probes, git),
{
    let git = git_on_path();
    doctor_report(settings, env, probes, git)
}

} // verus!
