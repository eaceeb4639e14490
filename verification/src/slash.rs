//! What a line of input means: a slash command run locally, a prompt for the
//! model (plain text, a prompt-backed command, or a markdown command's
//! template), or an error for an unknown command.

use vstd::prelude::*;
use crate::commands::{
    KindView, SlashCommandKind, SlashCommandRegistry, builtin_specs, find_index,
    lemma_find_index_spec,
};
use crate::paths::{join_path, path_join};
use crate::text::{
    char_is_ws, chars_of, concat, has_prefix, is_blank_str, is_ws, lower, opt_view,
    replace_all, replace_str, split_ws, str_eq, string_of_range, to_lower_str, trim, trim_str,
    views, words,
};

verus! {

/// A command the program carries out itself.
#[derive(Debug, Clone, PartialEq, Eq)]
pub enum LocalCommand {
    Help,
    Clear,
    Diff { full: bool },
    Doctor,
    Init { force: bool, append: bool },
    Branch { message_id: Option<String> },
    Compact { instructions: Option<String> },
    Permissions,
    Model { model: Option<String> },
    Mcp { action: McpSlashAction },
    Plugin { action: PluginSlashAction },
    Skills { action: SkillsSlashAction },
    Plan { action: PlanSlashAction },
    Rewind { message_id: Option<String>, files_only: bool },
    Status,
    Resume { session_id: Option<String> },
}

/// What `/mcp` was asked to do.
#[derive(Debug, Clone, PartialEq, Eq)]
pub enum McpSlashAction {
    Help,
    List,
    Add { name: String, command: String, args: Vec<String> },
    Remove { name: String },
    Restart { name: String },
    Start { name: String },
    Stop { name: String },
}

/// What `/plugin` was asked to do.
#[derive(Debug, Clone, PartialEq, Eq)]
pub enum PluginSlashAction {
    Help,
    List,
    Search { query: String },
    Install { plugin: String },
    Remove { name: String },
    Enable { name: String },
    Disable { name: String },
    Update { target: PluginUpdateTarget },
}

/// Which plugins `/plugin update` concerns.
#[derive(Debug, Clone, PartialEq, Eq)]
pub enum PluginUpdateTarget {
    All,
    One(String),
}

/// What `/skills` was asked to do.
#[derive(Debug, Clone, PartialEq, Eq)]
pub enum SkillsSlashAction {
    Help,
    List,
    Show { name: String },
    Path,
}

/// What `/plan` was asked to do.
#[derive(Debug, Clone, PartialEq, Eq)]
pub enum PlanSlashAction {
    Enter { prompt: Option<String> },
    Show,
    Open,
    Exit,
}

/// A line of input, classified.
#[derive(Debug, Clone, PartialEq, Eq)]
pub enum ProcessedInput {
    Prompt(String),
    LocalCommand(LocalCommand),
    Error(String),
}

/// The index of the first whitespace character of `s`.
pub open spec fn first_ws(s: Seq<char>) -> Option<int>
    decreases s.len(),
{
    if s.len() == 0 {
        None
    } else if is_ws(s[0]) {
        Some(0)
    } else {
        match first_ws(s.drop_first()) {
            Some(i) => Some(i + 1),
            None => None,
        }
    }
}

proof fn lemma_first_ws_at(s: Seq<char>, i: int)
    requires
        0 <= i < s.len(),
        is_ws(s[i]),
        forall|j: int| 0 <= j < i ==> !is_ws(#[trigger] s[j]),
    ensures
        first_ws(s) == Some(i),
    decreases i,
{
    if i > 0 {
        let rest = s.drop_first();
        assert forall|j: int| 0 <= j < i - 1 implies !is_ws(#[trigger] rest[j]) by {
            assert(rest[j] == s[j + 1]);
        }
        lemma_first_ws_at(rest, i - 1);
    }
}

proof fn lemma_first_ws_none(s: Seq<char>)
    requires
        forall|j: int| 0 <= j < s.len() ==> !is_ws(#[trigger] s[j]),
    ensures
        first_ws(s) is None,
    decreases s.len(),
{
    if s.len() > 0 {
        let rest = s.drop_first();
        assert forall|j: int| 0 <= j < rest.len() implies !is_ws(#[trigger] rest[j]) by {
            assert(rest[j] == s[j + 1]);
        }
        lemma_first_ws_none(rest);
    }
}

/// The command name of the text after `/`: its first whitespace-free piece,
/// ASCII-lower-cased.
pub open spec fn slash_name(rest: Seq<char>) -> Seq<char> {
    match first_ws(rest) {
        Some(k) => lower(trim(rest.subrange(0, k))),
        None => lower(trim(rest)),
    }
}

/// The arguments of the text after `/`: what follows the first whitespace
/// character, trimmed.
pub open spec fn slash_args(rest: Seq<char>) -> Seq<char> {
    match first_ws(rest) {
        Some(k) => trim(rest.skip(k + 1)),
        None => Seq::empty(),
    }
}

/// `Some(args)` unless `args` is empty.
pub open spec fn given(args: Seq<char>) -> Option<Seq<char>> {
    if args.len() == 0 {
        None
    } else {
        Some(args)
    }
}

/// The local command a native command name and its arguments give.
pub open spec fn native_command_is(name: Seq<char>, args: Seq<char>, c: LocalCommand) -> bool {
    if name == "help"@ {
        c is Help
    } else if name == "clear"@ {
        c is Clear
    } else if name == "init"@ {
        c matches LocalCommand::Init { force, append } && force == words(args).contains("--force"@)
            && append == words(args).contains("--append"@)
    } else if name == "branch"@ {
        c matches LocalCommand::Branch { message_id } && opt_view(message_id) == given(args)
    } else if name == "compact"@ {
        c matches LocalCommand::Compact { instructions } && opt_view(instructions) == given(args)
    } else if name == "permissions"@ {
        c is Permissions
    } else if name == "model"@ {
        c matches LocalCommand::Model { model } && opt_view(model) == given(args)
    } else if name == "plan"@ {
        c matches LocalCommand::Plan { action } && action@ == plan_action_spec(args)
    } else if name == "mcp"@ {
        c matches LocalCommand::Mcp { action } && action@ == mcp_action_spec(words(args))
    } else if name == "rewind"@ {
        c matches LocalCommand::Rewind { message_id, files_only } && opt_view(message_id) == given(
            args,
        ) && !files_only
    } else if name == "rewind-files"@ {
        c matches LocalCommand::Rewind { message_id, files_only } && opt_view(message_id) == given(
            args,
        ) && files_only
    } else if name == "status"@ {
        c is Status
    } else if name == "resume"@ {
        c matches LocalCommand::Resume { session_id } && opt_view(session_id) == given(args)
    } else {
        c is Help
    }
}

/// The mathematical value of a `/plan` action.
pub enum PlanActionView {
    Enter(Option<Seq<char>>),
    Show,
    Open,
    Exit,
}

impl View for PlanSlashAction {
    type V = PlanActionView;

    open spec fn view(&self) -> PlanActionView {
        match self {
            PlanSlashAction::Enter { prompt } => PlanActionView::Enter(opt_view(*prompt)),
            PlanSlashAction::Show => PlanActionView::Show,
            PlanSlashAction::Open => PlanActionView::Open,
            PlanSlashAction::Exit => PlanActionView::Exit,
        }
    }
}

/// What `/plan` is asked to do by its (trimmed) arguments: `show`, `open`
/// and `exit` act on plan mode; anything else enters it, with the text as
/// the first prompt when there is one.
pub open spec fn plan_action_spec(args: Seq<char>) -> PlanActionView {
    if args == "show"@ {
        PlanActionView::Show
    } else if args == "open"@ {
        PlanActionView::Open
    } else if args == "exit"@ {
        PlanActionView::Exit
    } else {
        PlanActionView::Enter(given(args))
    }
}

/// The mathematical value of an `/mcp` action.
pub enum McpActionView {
    Help,
    List,
    Add(Seq<char>, Seq<char>, Seq<Seq<char>>),
    Remove(Seq<char>),
    Restart(Seq<char>),
    Start(Seq<char>),
    Stop(Seq<char>),
}

impl View for McpSlashAction {
    type V = McpActionView;

    open spec fn view(&self) -> McpActionView {
        match self {
            McpSlashAction::Help => McpActionView::Help,
            McpSlashAction::List => McpActionView::List,
            McpSlashAction::Add { name, command, args } => McpActionView::Add(name@, command@, views(args@)),
            McpSlashAction::Remove { name } => McpActionView::Remove(name@),
            McpSlashAction::Restart { name } => McpActionView::Restart(name@),
            McpSlashAction::Start { name } => McpActionView::Start(name@),
            McpSlashAction::Stop { name } => McpActionView::Stop(name@),
        }
    }
}

/// What `/mcp` is asked to do by the words of its arguments: `list`;
/// `add <name> <command> [args...]`; `remove`, `restart`, `start` or
/// `stop` with a name; anything else (or too few words) shows the help.
pub open spec fn mcp_action_spec(w: Seq<Seq<char>>) -> McpActionView {
    if w.len() == 0 {
        McpActionView::Help
    } else if w[0] == "list"@ {
        McpActionView::List
    } else if w[0] == "add"@ && w.len() >= 3 {
        McpActionView::Add(w[1], w[2], w.skip(3))
    } else if w[0] == "remove"@ && w.len() >= 2 {
        McpActionView::Remove(w[1])
    } else if w[0] == "restart"@ && w.len() >= 2 {
        McpActionView::Restart(w[1])
    } else if w[0] == "start"@ && w.len() >= 2 {
        McpActionView::Start(w[1])
    } else if w[0] == "stop"@ && w.len() >= 2 {
        McpActionView::Stop(w[1])
    } else {
        McpActionView::Help
    }
}

/// What `/plan` is asked to do.
pub fn parse_plan_action(args: &str) -> (a: PlanSlashAction)
    ensures
        a@ == plan_action_spec(args@),
{
    if str_eq(args, "show") {
        PlanSlashAction::Show
    } else if str_eq(args, "open") {
        PlanSlashAction::Open
    } else if str_eq(args, "exit") {
        PlanSlashAction::Exit
    } else {
        PlanSlashAction::Enter { prompt: given_exec(args) }
    }
}

/// What `/mcp` is asked to do.
pub fn parse_mcp_action(args: &str) -> (a: McpSlashAction)
    ensures
        a@ == mcp_action_spec(words(args@)),
{
    let w = split_ws(args);
    let ghost wv = views(w@);
    if w.len() == 0 {
        return McpSlashAction::Help;
    }
    assert(wv[0] == w@[0]@);
    let first = w[0].as_str();
    if str_eq(first, "list") {
        return McpSlashAction::List;
    }
    if w.len() >= 2 {
        assert(wv[1] == w@[1]@);
    }
    if str_eq(first, "add") && w.len() >= 3 {
        assert(wv[2] == w@[2]@);
        let mut rest: Vec<String> = Vec::new();
        let mut i: usize = 3;
        while i < w.len()
            invariant
                3 <= i <= w.len(),
                wv == views(w@),
                views(rest@) == wv.subrange(3, i as int),
            decreases w.len() - i,
        {
            let ghost before = views(rest@);
            rest.push(w[i].clone());
            assert(views(rest@) =~= before.push(w@[i as int]@));
            assert(wv.subrange(3, i + 1) =~= wv.subrange(3, i as int).push(wv[i as int]));
            i = i + 1;
        }
        assert(wv.subrange(3, w.len() as int) =~= wv.skip(3));
        return McpSlashAction::Add { name: w[1].clone(), command: w[2].clone(), args: rest };
    }
    if w.len() >= 2 {
        let name = w[1].clone();
        if str_eq(first, "remove") {
            return McpSlashAction::Remove { name };
        } else if str_eq(first, "restart") {
            return McpSlashAction::Restart { name };
        } else if str_eq(first, "start") {
            return McpSlashAction::Start { name };
        } else if str_eq(first, "stop") {
            return McpSlashAction::Stop { name };
        }
    }
    McpSlashAction::Help
}

/// `/rewind` and `/rewind-files` with the same arguments name the same
/// target turn (none when the arguments are empty, else the arguments), and
/// differ only in scope: `/rewind` rewinds the conversation with the files,
/// `/rewind-files` only the files.
pub proof fn law_rewind_scopes(args: Seq<char>, whole: LocalCommand, files: LocalCommand)
    requires
        native_command_is("rewind"@, args, whole),
        native_command_is("rewind-files"@, args, files),
    ensures
        whole matches LocalCommand::Rewind { message_id: w, files_only: fw } && !fw && (args.len() == 0
            ==> w is None) && (args.len() > 0 ==> opt_view(w) == Some(args)),
        files matches LocalCommand::Rewind { message_id: f, files_only: ff } && ff && (args.len() == 0
            ==> f is None) && (args.len() > 0 ==> opt_view(f) == Some(args)),
        whole != files,
{
    reveal_strlit("rewind");
    reveal_strlit("rewind-files");
    reveal_strlit("help");
    reveal_strlit("clear");
    reveal_strlit("init");
    reveal_strlit("branch");
    reveal_strlit("compact");
    reveal_strlit("permissions");
    reveal_strlit("model");
    reveal_strlit("plan");
    reveal_strlit("mcp");
    let r = "rewind"@;
    let rf = "rewind-files"@;
    assert(r[0] == 'r' && rf[0] == 'r');
    assert("help"@[0] != 'r' && "clear"@[0] != 'r' && "init"@[0] != 'r' && "branch"@[0] != 'r'
        && "compact"@[0] != 'r' && "permissions"@[0] != 'r' && "model"@[0] != 'r' && "plan"@[0] != 'r'
        && "mcp"@[0] != 'r');
    assert(r.len() != rf.len());
}

/// `value`, or `default` when `value` is blank.
pub open spec fn or_default(value: Seq<char>, default: Seq<char>) -> Seq<char> {
    if trim(value).len() == 0 {
        default
    } else {
        value
    }
}

/// The prompt a prompt-backed command and its arguments give.
pub open spec fn prompt_text(name: Seq<char>, args: Seq<char>) -> Seq<char> {
    if name == "init"@ {
        "Please analyze this repository and create or update a concise `rustcode.md` file at the workspace root.\n\nWhat to do:\n1. Inspect the repository before writing: read manifest files, README files, AGENTS.md, existing rustcode.md or other assistant instruction files, package/build configs, and obvious test/lint configuration.\n2. Identify the commands future RustCode sessions need: build, check, lint, test, and how to run focused tests. Do not invent commands you cannot infer.\n3. Summarize high-level architecture and non-obvious workflow rules. Avoid listing every file or generic best practices.\n4. Write the result to `rustcode.md` only. If `rustcode.md` exists, update it instead of duplicating sections.\n5. Keep it concise and repository-specific.\n\nUser notes for this init run: "@
            + or_default(args, "none"@)
    } else if name == "review"@ {
        "Review this codebase or change with a code-review mindset. Prioritize correctness, regressions, security risks, and missing tests. Scope: "@
            + or_default(args, "current workspace or diff"@)
    } else if name == "explain"@ {
        "Explain the following target clearly and concisely, including important architecture and behavior: "@
            + or_default(args, "the current context"@)
    } else if name == "fix"@ {
        "Investigate and fix this issue. Gather evidence before changing code, make the smallest correct change, and verify it: "@
            + or_default(args, "the current issue"@)
    } else if name == "test"@ {
        "Create or improve tests for this target. Prefer focused tests that verify behavior and regressions: "@
            + or_default(args, "the current change"@)
    } else {
        args
    }
}

/// A markdown command's template with `$ARGUMENTS`, `$CWD` and
/// `$RUSTCODE_MD` filled in.
pub open spec fn render_spec(template: Seq<char>, args: Seq<char>, cwd: Seq<char>) -> Seq<char> {
    replace_all(
        replace_all(replace_all(template, "$ARGUMENTS"@, args), "$CWD"@, cwd),
        "$RUSTCODE_MD"@,
        path_join(cwd, "rustcode.md"@),
    )
}

/// What a line of input gives against the commands `cmds` in the working
/// directory `cwd`: nothing unless it starts with `/` once trimmed; an error
/// for an unknown name; else what the command's kind makes of the
/// arguments.
pub open spec fn slash_outcome(input: Seq<char>, cmds: Seq<crate::commands::SpecView>, cwd: Seq<char>, r: Option<ProcessedInput>) -> bool {
    let t = trim(input);
    if !has_prefix(t, "/"@) {
        r is None
    } else {
        let rest = t.skip(1);
        let name = slash_name(rest);
        let args = slash_args(rest);
        match find_index(cmds, name) {
            None => r matches Some(ProcessedInput::Error(m)) && m@ == "Unknown slash command: /"@ + name,
            Some(i) => match cmds[i].kind {
                KindView::Native => r matches Some(ProcessedInput::LocalCommand(c)) && native_command_is(
                    cmds[i].name,
                    args,
                    c,
                ),
                KindView::Prompt => r matches Some(ProcessedInput::Prompt(p)) && p@ == prompt_text(
                    cmds[i].name,
                    args,
                ),
                KindView::FileBacked(template) => r matches Some(ProcessedInput::Prompt(p)) && p@
                    == render_spec(template, args, cwd),
            },
        }
    }
}

fn has_word(ws: &Vec<String>, w: &str) -> (r: bool)
    ensures
        r == views(ws@).contains(w@),
{
    let mut i: usize = 0;
    while i < ws.len()
        invariant
            i <= ws.len(),
            forall|j: int| 0 <= j < i ==> views(ws@)[j] != w@,
        decreases ws.len() - i,
    {
        assert(views(ws@)[i as int] == ws@[i as int]@);
        if str_eq(ws[i].as_str(), w) {
            assert(views(ws@)[i as int] == w@);
            return true;
        }
        i = i + 1;
    }
    false
}

fn given_exec(args: &str) -> (r: Option<String>)
    ensures
        opt_view(r) == given(args@),
{
    if args.unicode_len() == 0 {
        None
    } else {
        Some(String::from_str(args))
    }
}

/// The local command a native command and its arguments give; an unknown
/// native name gives `Help`.
pub fn parse_native_command(command: &str, args: &str) -> (c: LocalCommand)
    ensures
        native_command_is(command@, args@, c),
{
    if str_eq(command, "help") {
        LocalCommand::Help
    } else if str_eq(command, "clear") {
        LocalCommand::Clear
    } else if str_eq(command, "init") {
        let ws = split_ws(args);
        LocalCommand::Init { force: has_word(&ws, "--force"), append: has_word(&ws, "--append") }
    } else if str_eq(command, "branch") {
        LocalCommand::Branch { message_id: given_exec(args) }
    } else if str_eq(command, "compact") {
        LocalCommand::Compact { instructions: given_exec(args) }
    } else if str_eq(command, "permissions") {
        LocalCommand::Permissions
    } else if str_eq(command, "model") {
        LocalCommand::Model { model: given_exec(args) }
    } else if str_eq(command, "plan") {
        LocalCommand::Plan { action: parse_plan_action(args) }
    } else if str_eq(command, "mcp") {
        LocalCommand::Mcp { action: parse_mcp_action(args) }
    } else if str_eq(command, "rewind") {
        LocalCommand::Rewind { message_id: given_exec(args), files_only: false }
    } else if str_eq(command, "rewind-files") {
        LocalCommand::Rewind { message_id: given_exec(args), files_only: true }
    } else if str_eq(command, "status") {
        LocalCommand::Status
    } else if str_eq(command, "resume") {
        LocalCommand::Resume { session_id: given_exec(args) }
    } else {
        LocalCommand::Help
    }
}

/// `value`, or `default` when `value` is blank.
pub fn empty_as_default<'a>(value: &'a str, default: &'a str) -> (r: &'a str)
    ensures
        r@ == or_default(value@, default@),
{
    if is_blank_str(value) {
        default
    } else {
        value
    }
}

/// The prompt a prompt-backed command and its arguments give.
pub fn format_prompt_command(command: &str, args: &str) -> (r: String)
    ensures
        r@ == prompt_text(command@, args@),
{
    if str_eq(command, "init") {
        concat(
            "Please analyze this repository and create or update a concise `rustcode.md` file at the workspace root.\n\nWhat to do:\n1. Inspect the repository before writing: read manifest files, README files, AGENTS.md, existing rustcode.md or other assistant instruction files, package/build configs, and obvious test/lint configuration.\n2. Identify the commands future RustCode sessions need: build, check, lint, test, and how to run focused tests. Do not invent commands you cannot infer.\n3. Summarize high-level architecture and non-obvious workflow rules. Avoid listing every file or generic best practices.\n4. Write the result to `rustcode.md` only. If `rustcode.md` exists, update it instead of duplicating sections.\n5. Keep it concise and repository-specific.\n\nUser notes for this init run: ",
            empty_as_default(args, "none"),
        )
    } else if str_eq(command, "review") {
        concat(
            "Review this codebase or change with a code-review mindset. Prioritize correctness, regressions, security risks, and missing tests. Scope: ",
            empty_as_default(args, "current workspace or diff"),
        )
    } else if str_eq(command, "explain") {
        concat(
            "Explain the following target clearly and concisely, including important architecture and behavior: ",
            empty_as_default(args, "the current context"),
        )
    } else if str_eq(command, "fix") {
        concat(
            "Investigate and fix this issue. Gather evidence before changing code, make the smallest correct change, and verify it: ",
            empty_as_default(args, "the current issue"),
        )
    } else if str_eq(command, "test") {
        concat(
            "Create or improve tests for this target. Prefer focused tests that verify behavior and regressions: ",
            empty_as_default(args, "the current change"),
        )
    } else {
        String::from_str(args)
    }
}

/// A markdown command's template with `$ARGUMENTS` replaced by the
/// arguments, `$CWD` by the working directory and `$RUSTCODE_MD` by the
/// path of `rustcode.md` in it.
pub fn render_markdown_command(template: &str, args: &str, cwd: &str) -> (r: String)
    ensures
        r@ == render_spec(template@, args@, cwd@),
{
    proof {
        reveal_strlit("$ARGUMENTS");
        reveal_strlit("$CWD");
        reveal_strlit("$RUSTCODE_MD");
    }
    let a = replace_str(template, "$ARGUMENTS", args);
    let b = replace_str(a.as_str(), "$CWD", cwd);
    let md = join_path(cwd, "rustcode.md");
    replace_str(b.as_str(), "$RUSTCODE_MD", md.as_str())
}

/// The name and the arguments of the text after `/`.
fn split_slash(rest: &Vec<char>) -> (r: (String, String))
    ensures
        r.0@ == slash_name(rest@),
        r.1@ == slash_args(rest@),
{
    let mut k: usize = 0;
    while k < rest.len() && !char_is_ws(rest[k])
        invariant
            k <= rest.len(),
            forall|j: int| 0 <= j < k ==> !is_ws(#[trigger] rest@[j]),
        decreases rest.len() - k,
    {
        k = k + 1;
    }
    let head = string_of_range(rest, 0, k);
    let name = to_lower_str(trim_str(head.as_str()).as_str());
    if k < rest.len() {
        proof {
            lemma_first_ws_at(rest@, k as int);
        }
        let tail = string_of_range(rest, k + 1, rest.len());
        assert(tail@ =~= rest@.skip(k + 1));
        (name, trim_str(tail.as_str()))
    } else {
        proof {
            lemma_first_ws_none(rest@);
        }
        assert(head@ =~= rest@);
        (name, String::new())
    }
}

/// What a line of input means against `registry` in the working directory
/// `cwd`: `None` unless it starts with `/` once trimmed; an error for an
/// unknown command; else the local command or prompt the command gives.
pub fn process_slash_input(input: &str, registry: &SlashCommandRegistry, cwd: &str) -> (r: Option<ProcessedInput>)
    ensures
        slash_outcome(input@, registry@, cwd@, r),
{
    let t = trim_str(input);
    let v = chars_of(t.as_str());
    if v.len() == 0 || v[0] != '/' {
        proof {
            reveal_strlit("/");
            if has_prefix(t@, "/"@) {
                assert(t@[0] == "/"@[0]);
            }
        }
        return None;
    }
    proof {
        reveal_strlit("/");
        assert(t@.subrange(0, 1) =~= "/"@);
    }
    let rest_string = string_of_range(&v, 1, v.len());
    let rest = chars_of(rest_string.as_str());
    assert(rest@ =~= t@.skip(1));
    let (name, args) = split_slash(&rest);
    proof {
        lemma_find_index_spec(registry@, name@);
    }
    match registry.find(name.as_str()) {
        None => Some(ProcessedInput::Error(concat("Unknown slash command: /", name.as_str()))),
        Some(command) => match &command.kind {
            SlashCommandKind::Native => Some(
                ProcessedInput::LocalCommand(parse_native_command(command.name.as_str(), args.as_str())),
            ),
            SlashCommandKind::Prompt => Some(
                ProcessedInput::Prompt(format_prompt_command(command.name.as_str(), args.as_str())),
            ),
            SlashCommandKind::FileBacked { template } => Some(
                ProcessedInput::Prompt(render_markdown_command(template.as_str(), args.as_str(), cwd)),
            ),
        },
    }
}

/// The local command a line of input names among the built-in commands, if
/// it names one.
pub open spec fn local_command_of(input: Seq<char>, c: Option<LocalCommand>) -> bool {
    let t = trim(input);
    if !has_prefix(t, "/"@) {
        c is None
    } else {
        let rest = t.skip(1);
        match find_index(builtin_specs(), slash_name(rest)) {
            Some(i) => match builtin_specs()[i].kind {
                KindView::Native => c matches Some(cmd) && native_command_is(
                    builtin_specs()[i].name,
                    slash_args(rest),
                    cmd,
                ),
                _ => c is None,
            },
            None => c is None,
        }
    }
}

/// The local command a line of input names, if it names one. Markdown
/// commands never shadow a built-in, so only the built-ins can answer.
pub fn parse_slash_command(input: &str) -> (r: Option<LocalCommand>)
    ensures
        local_command_of(input@, r),
{
    let none: Vec<crate::commands::SlashCommandSpec> = Vec::new();
    assert(crate::commands::specs_view(none@) =~= Seq::empty());
    let registry = SlashCommandRegistry::load(none);
    match process_slash_input(input, &registry, "") {
        Some(ProcessedInput::LocalCommand(command)) => Some(command),
        _ => None,
    }
}

/// Classifies lines of input: slash commands as `process_slash_input` does,
/// anything else as a prompt of the trimmed text.
#[derive(Debug, Default)]
pub struct InputProcessor;

impl InputProcessor {
    /// A processor; it keeps no state.
    pub fn new() -> (p: Self) {
        InputProcessor
    }

    /// What `input` means against `registry` in the working directory `cwd`.
    pub fn process(&self, input: &str, registry: &SlashCommandRegistry, cwd: &str) -> (r: ProcessedInput)
        ensures
            ({
                ||| slash_outcome(input@, registry@, cwd@, Some(r))
                ||| {
                    &&& slash_outcome(input@, registry@, cwd@, None)
                    &&& r matches ProcessedInput::Prompt(p)
                    &&& p@ == trim(input@)
                }
            }),
    {
        match process_slash_input(input, registry, cwd) {
            Some(p) => p,
            None => ProcessedInput::Prompt(trim_str(input)),
        }
    }
}

} // verus!
