//! Paths as text: joining components the way `Path::join` does on Unix, the
//! global configuration directory under the home directory, and the
//! project-local directory layout.

use vstd::prelude::*;
use crate::text::{concat, is_blank_str, opt_view, trim, trim_str};

verus! {

/// `base` joined with `comp` as `Path::join` does with `/` separators: an
/// absolute `comp` replaces `base`, an empty `base` yields `comp`, and a
/// separator is inserted unless `base` already ends with one.
pub open spec fn path_join(base: Seq<char>, comp: Seq<char>) -> Seq<char> {
    if comp.len() > 0 && comp[0] == '/' {
        comp
    } else if base.len() == 0 {
        comp
    } else if base.last() == '/' {
        base + comp
    } else {
        base + seq!['/'] + comp
    }
}

/// `Path::join` on `/`-separated paths.
pub fn join_path(base: &str, comp: &str) -> (r: String)
    ensures
        r@ == path_join(base@, comp@),
{
    let comp_absolute = comp.unicode_len() > 0 && comp.get_char(0) == '/';
    if comp_absolute {
        return String::from_str(comp);
    }
    let n = base.unicode_len();
    if n == 0 {
        String::from_str(comp)
    } else if base.get_char(n - 1) == '/' {
        concat(base, comp)
    } else {
        let with_sep = concat(base, "/");
        proof {
            reveal_strlit("/");
        }
        let r = concat(with_sep.as_str(), comp);
        assert(r@ =~= base@ + seq!['/'] + comp@);
        r
    }
}

/// The user's home directory, when the platform knows one
/// (`dirs::home_dir`, lossily converted to text).
#[verifier::external_body]
pub(crate) fn home_dir() -> (r: Option<String>) {
    match dirs::home_dir() {
        Some(p) => Some(p.to_string_lossy().into_owned()),
        None => None,
    }
}

/// The home directory, `.` when unknown.
pub open spec fn home_or_dot(home: Option<Seq<char>>) -> Seq<char> {
    match home {
        Some(h) => h,
        None => "."@,
    }
}

/// The global configuration directory for a home directory:
/// `<home>/.rustcode`.
pub open spec fn config_dir_spec(home: Option<Seq<char>>) -> Seq<char> {
    path_join(home_or_dot(home), ".rustcode"@)
}

/// The global configuration directory under `home` (`.` when unknown).
pub fn config_dir_under(home: &Option<String>) -> (r: String)
    ensures
        r@ == config_dir_spec(opt_view(*home)),
{
    match home {
        Some(h) => join_path(h.as_str(), ".rustcode"),
        None => join_path(".", ".rustcode"),
    }
}

/// The global configuration directory, `~/.rustcode`.
pub fn global_config_dir() -> (r: String)
    ensures
        exists|home: Option<Seq<char>>| r@ == config_dir_spec(home),
{
    let home = home_dir();
    config_dir_under(&home)
}

/// The file that names the active settings profile:
/// `<home>/.rustcode/active-profile`.
pub open spec fn active_profile_path_spec(home: Option<Seq<char>>) -> Seq<char> {
    path_join(config_dir_spec(home), "active-profile"@)
}

/// The global settings file for a home directory and the contents of the
/// active-profile file, if any: `<home>/.rustcode/profiles/<name>.json` for
/// a non-blank profile name (trimmed), else `<home>/.rustcode/settings.json`.
pub open spec fn settings_path_spec(home: Option<Seq<char>>, active_profile: Option<Seq<char>>) -> Seq<char> {
    match active_profile {
        Some(n) if trim(n).len() > 0 => path_join(
            path_join(config_dir_spec(home), "profiles"@),
            trim(n) + ".json"@,
        ),
        _ => path_join(config_dir_spec(home), "settings.json"@),
    }
}

/// The global settings file under `home`, given the contents of the
/// active-profile file (`None` when there is none).
pub fn settings_path_under(home: &Option<String>, active_profile: Option<&str>) -> (r: String)
    ensures
        r@ == settings_path_spec(opt_view(*home), str_view(active_profile)),
{
    let dir = config_dir_under(home);
    match active_profile {
        Some(n) => {
            if !is_blank_str(n) {
                let profiles = join_path(dir.as_str(), "profiles");
                let file = concat(trim_str(n).as_str(), ".json");
                return join_path(profiles.as_str(), file.as_str());
            }
        },
        None => {},
    }
    join_path(dir.as_str(), "settings.json")
}

/// The file that names the active profile, `~/.rustcode/active-profile`.
pub fn active_profile_path() -> (r: String)
    ensures
        exists|home: Option<Seq<char>>| r@ == active_profile_path_spec(home),
{
    let home = home_dir();
    let dir = config_dir_under(&home);
    let r = join_path(dir.as_str(), "active-profile");
    assert(r@ == active_profile_path_spec(opt_view(home)));
    r
}

/// The global settings file: the active profile's
/// `~/.rustcode/profiles/<name>.json`, given the contents of the
/// active-profile file, else `~/.rustcode/settings.json`.
pub fn global_settings_path(active_profile: Option<&str>) -> (r: String)
    ensures
        exists|home: Option<Seq<char>>| r@ == settings_path_spec(home, str_view(active_profile)),
{
    let home = home_dir();
    let r = settings_path_under(&home, active_profile);
    assert(r@ == settings_path_spec(opt_view(home), str_view(active_profile)));
    r
}

/// The project root: the given directory, else the process's current one.
pub open spec fn root_spec(cwd: Option<Seq<char>>, current_dir: Option<Seq<char>>) -> Option<Seq<char>> {
    match cwd {
        Some(c) => Some(c),
        None => current_dir,
    }
}

/// The view of an optional string slice.
pub open spec fn str_view(o: Option<&str>) -> Option<Seq<char>> {
    match o {
        Some(s) => Some(s@),
        None => None,
    }
}

/// The project root: `cwd` when given, else `current_dir` (the process's
/// working directory, which the caller looked up).
pub fn project_root_from(cwd: Option<&str>, current_dir: Option<&str>) -> (r: Option<String>)
    ensures
        opt_view(r) == root_spec(str_view(cwd), str_view(current_dir)),
{
    match cwd {
        Some(c) => Some(String::from_str(c)),
        None => match current_dir {
            Some(d) => Some(String::from_str(d)),
            None => None,
        },
    }
}

/// `dir` joined with `comp` when there is a directory.
pub open spec fn opt_join(dir: Option<Seq<char>>, comp: Seq<char>) -> Option<Seq<char>> {
    match dir {
        Some(d) => Some(path_join(d, comp)),
        None => None,
    }
}

fn opt_join_exec(dir: Option<String>, comp: &str) -> (r: Option<String>)
    ensures
        opt_view(r) == opt_join(opt_view(dir), comp@),
{
    match dir {
        Some(d) => Some(join_path(d.as_str(), comp)),
        None => None,
    }
}

/// The project's RustCode directory: `<root>/rustcode`.
pub open spec fn rustcode_dir_spec(cwd: Option<Seq<char>>, current_dir: Option<Seq<char>>) -> Option<Seq<char>> {
    opt_join(root_spec(cwd, current_dir), "rustcode"@)
}

/// The project's state directory: `<root>/rustcode/state`.
pub open spec fn state_dir_spec(cwd: Option<Seq<char>>, current_dir: Option<Seq<char>>) -> Option<Seq<char>> {
    opt_join(rustcode_dir_spec(cwd, current_dir), "state"@)
}

/// `<root>/rustcode`.
pub fn project_rustcode_dir(cwd: Option<&str>, current_dir: Option<&str>) -> (r: Option<String>)
    ensures
        opt_view(r) == rustcode_dir_spec(str_view(cwd), str_view(current_dir)),
{
    opt_join_exec(project_root_from(cwd, current_dir), "rustcode")
}

/// `<root>/rustcode/settings.local.json`.
pub fn project_local_settings_path(cwd: Option<&str>, current_dir: Option<&str>) -> (r: Option<String>)
    ensures
        opt_view(r) == opt_join(rustcode_dir_spec(str_view(cwd), str_view(current_dir)), "settings.local.json"@),
{
    opt_join_exec(project_rustcode_dir(cwd, current_dir), "settings.local.json")
}

/// `<root>/rustcode/sessions`.
pub fn project_sessions_dir(cwd: Option<&str>, current_dir: Option<&str>) -> (r: Option<String>)
    ensures
        opt_view(r) == opt_join(rustcode_dir_spec(str_view(cwd), str_view(current_dir)), "sessions"@),
{
    opt_join_exec(project_rustcode_dir(cwd, current_dir), "sessions")
}

/// `<root>/rustcode/state`.
pub fn project_state_dir(cwd: Option<&str>, current_dir: Option<&str>) -> (r: Option<String>)
    ensures
        opt_view(r) == state_dir_spec(str_view(cwd), str_view(current_dir)),
{
    opt_join_exec(project_rustcode_dir(cwd, current_dir), "state")
}

/// `<root>/rustcode/state/tasks`.
pub fn project_tasks_dir(cwd: Option<&str>, current_dir: Option<&str>) -> (r: Option<String>)
    ensures
        opt_view(r) == opt_join(state_dir_spec(str_view(cwd), str_view(current_dir)), "tasks"@),
{
    opt_join_exec(project_state_dir(cwd, current_dir), "tasks")
}

/// `<root>/rustcode/state/file-history`.
pub fn project_file_history_dir(cwd: Option<&str>, current_dir: Option<&str>) -> (r: Option<String>)
    ensures
        opt_view(r) == opt_join(state_dir_spec(str_view(cwd), str_view(current_dir)), "file-history"@),
{
    opt_join_exec(project_state_dir(cwd, current_dir), "file-history")
}

/// `<root>/rustcode/state/permission-events.json`.
pub fn project_permission_events_path(cwd: Option<&str>, current_dir: Option<&str>) -> (r: Option<String>)
    ensures
        opt_view(r) == opt_join(state_dir_spec(str_view(cwd), str_view(current_dir)), "permission-events.json"@),
{
    opt_join_exec(project_state_dir(cwd, current_dir), "permission-events.json")
}

} // verus!
