//! Slash-command descriptions, the built-in set, and the registry that puts
//! discovered markdown commands after the built-ins without letting them
//! shadow one.

use vstd::prelude::*;
use crate::permissions::clone_strings;
use crate::text::{clone_opt, eq_ignore_case, eq_ignore_case_str, opt_view, views};

verus! {

/// Where a slash command comes from.
#[derive(Debug, Clone, Copy, PartialEq, Eq, Structural)]
pub enum SlashCommandSource {
    Builtin,
    Project,
    User,
    ClaudeCompat,
    VendoredPrompt,
}

/// How a slash command is carried out.
#[derive(Debug, PartialEq, Eq)]
pub enum SlashCommandKind {
    Native,
    Prompt,
    FileBacked { template: String },
}

/// The mathematical value of a command kind.
pub enum KindView {
    Native,
    Prompt,
    FileBacked(Seq<char>),
}

impl View for SlashCommandKind {
    type V = KindView;

    open spec fn view(&self) -> KindView {
        match self {
            SlashCommandKind::Native => KindView::Native,
            SlashCommandKind::Prompt => KindView::Prompt,
            SlashCommandKind::FileBacked { template } => KindView::FileBacked(template@),
        }
    }
}

impl Clone for SlashCommandKind {
    fn clone(&self) -> (r: Self)
        ensures
            r@ == self@,
    {
        match self {
            SlashCommandKind::Native => SlashCommandKind::Native,
            SlashCommandKind::Prompt => SlashCommandKind::Prompt,
            SlashCommandKind::FileBacked { template } => SlashCommandKind::FileBacked {
                template: template.clone(),
            },
        }
    }
}

/// One slash command: its name, aliases, help text and behaviour.
#[derive(Debug, PartialEq, Eq)]
pub struct SlashCommandSpec {
    pub name: String,
    pub aliases: Vec<String>,
    pub description: String,
    pub argument_hint: Option<String>,
    pub source: SlashCommandSource,
    pub kind: SlashCommandKind,
}

/// The mathematical value of a slash command.
pub struct SpecView {
    pub name: Seq<char>,
    pub aliases: Seq<Seq<char>>,
    pub description: Seq<char>,
    pub argument_hint: Option<Seq<char>>,
    pub source: SlashCommandSource,
    pub kind: KindView,
}

impl View for SlashCommandSpec {
    type V = SpecView;

    open spec fn view(&self) -> SpecView {
        SpecView {
            name: self.name@,
            aliases: views(self.aliases@),
            description: self.description@,
            argument_hint: opt_view(self.argument_hint),
            source: self.source,
            kind: self.kind@,
        }
    }
}

impl Clone for SlashCommandSpec {
    fn clone(&self) -> (r: Self)
        ensures
            r@ == self@,
    {
        SlashCommandSpec {
            name: self.name.clone(),
            aliases: clone_strings(&self.aliases),
            description: self.description.clone(),
            argument_hint: clone_opt(&self.argument_hint),
            source: self.source,
            kind: self.kind.clone(),
        }
    }
}

/// The views of a list of commands.
pub open spec fn specs_view(v: Seq<SlashCommandSpec>) -> Seq<SpecView> {
    v.map_values(|c: SlashCommandSpec| c@)
}

/// Whether `candidate` names the command: its name or one of its aliases,
/// ignoring ASCII case.
pub open spec fn command_matches(c: SpecView, candidate: Seq<char>) -> bool {
    eq_ignore_case(c.name, candidate) || exists|i: int|
        0 <= i < c.aliases.len() && eq_ignore_case(#[trigger] c.aliases[i], candidate)
}

impl SlashCommandSpec {
    /// Whether `candidate` is this command's name or an alias, ignoring
    /// ASCII case.
    pub fn matches(&self, candidate: &str) -> (b: bool)
        ensures
            b == command_matches(self@, candidate@),
    {
        if eq_ignore_case_str(self.name.as_str(), candidate) {
            return true;
        }
        let mut i: usize = 0;
        while i < self.aliases.len()
            invariant
                i <= self.aliases.len(),
                forall|j: int| 0 <= j < i ==> !eq_ignore_case(#[trigger] views(self.aliases@)[j], candidate@),
            decreases self.aliases.len() - i,
        {
            assert(views(self.aliases@)[i as int] == self.aliases@[i as int]@);
            if eq_ignore_case_str(self.aliases[i].as_str(), candidate) {
                assert(self@.aliases[i as int] == views(self.aliases@)[i as int]);
                assert(eq_ignore_case(self@.aliases[i as int], candidate@));
                assert(command_matches(self@, candidate@));
                return true;
            }
            i = i + 1;
        }
        false
    }
}

/// A built-in command carried out by the program itself.
pub open spec fn native_spec(name: Seq<char>, description: Seq<char>, hint: Option<Seq<char>>, aliases: Seq<Seq<char>>) -> SpecView {
    SpecView {
        name,
        aliases,
        description,
        argument_hint: hint,
        source: SlashCommandSource::Builtin,
        kind: KindView::Native,
    }
}

/// A built-in command that becomes a prompt for the model.
pub open spec fn prompt_spec(name: Seq<char>, description: Seq<char>, hint: Option<Seq<char>>) -> SpecView {
    SpecView {
        name,
        aliases: Seq::empty(),
        description,
        argument_hint: hint,
        source: SlashCommandSource::VendoredPrompt,
        kind: KindView::Prompt,
    }
}

/// The built-in commands, in order.
pub open spec fn builtin_specs() -> Seq<SpecView> {
    seq![
        native_spec("help"@, "Show available commands"@, None, seq!["h"@]),
        native_spec("clear"@, "Clear the active conversation and start a new session"@, None, Seq::empty()),
        prompt_spec("init"@, "Analyze this codebase and create or update rustcode.md"@, None),
        native_spec("branch"@, "Fork the current session, optionally from a user message id"@, Some("[id]"@), seq!["fork"@]),
        native_spec("compact"@, "Compact history into a summary and keep recent context"@, Some("[text]"@), Seq::empty()),
        native_spec("permissions"@, "Inspect permission rules"@, None, Seq::empty()),
        native_spec("model"@, "Show or change the active model for this session"@, Some("[name]"@), Seq::empty()),
        native_spec("plan"@, "Toggle plan mode for architectural design"@, Some("[prompt|show|open|exit]"@), Seq::empty()),
        native_spec("mcp"@, "Manage Model Context Protocol servers"@, Some("[list|add|remove|restart|start|stop]"@), Seq::empty()),
        native_spec("rewind"@, "Rewind conversation and files to a user message id (or last-user)"@, Some("<id>"@), Seq::empty()),
        native_spec("rewind-files"@, "Rewind only files to a user message id (or last-user)"@, Some("<id>"@), Seq::empty()),
        native_spec("status"@, "Show current runtime status"@, None, Seq::empty()),
        native_spec("resume"@, "Resume the latest or a matching session"@, Some("[query]"@), Seq::empty()),
        prompt_spec("review"@, "Review the current change or target for correctness and risk"@, Some("[scope]"@)),
        prompt_spec("explain"@, "Explain a file, symbol, or code path"@, Some("<file-or-topic>"@)),
        prompt_spec("fix"@, "Propose and implement a fix for a problem"@, Some("<issue>"@)),
        prompt_spec("test"@, "Design or suggest tests for the current workspace or target"@, Some("[scope]"@)),
    ]
}

fn opt_str(o: Option<&str>) -> (r: Option<String>)
    ensures
        opt_view(r) == match o {
            Some(s) => Some(s@),
            None => None::<Seq<char>>,
        },
{
    match o {
        Some(s) => Some(String::from_str(s)),
        None => None,
    }
}

fn native(name: &str, description: &str, argument_hint: Option<&str>, alias: Option<&str>) -> (c: SlashCommandSpec)
    ensures
        c@ == native_spec(
            name@,
            description@,
            match argument_hint {
                Some(h) => Some(h@),
                None => None::<Seq<char>>,
            },
            match alias {
                Some(a) => seq![a@],
                None => Seq::<Seq<char>>::empty(),
            },
        ),
{
    let mut aliases: Vec<String> = Vec::new();
    match alias {
        Some(a) => aliases.push(String::from_str(a)),
        None => {},
    }
    let c = SlashCommandSpec {
        name: String::from_str(name),
        aliases,
        description: String::from_str(description),
        argument_hint: opt_str(argument_hint),
        source: SlashCommandSource::Builtin,
        kind: SlashCommandKind::Native,
    };
    assert(c@.aliases =~= match alias {
        Some(a) => seq![a@],
        None => Seq::<Seq<char>>::empty(),
    });
    c
}

fn prompt(name: &str, description: &str, argument_hint: Option<&str>) -> (c: SlashCommandSpec)
    ensures
        c@ == prompt_spec(
            name@,
            description@,
            match argument_hint {
                Some(h) => Some(h@),
                None => None::<Seq<char>>,
            },
        ),
{
    let c = SlashCommandSpec {
        name: String::from_str(name),
        aliases: Vec::new(),
        description: String::from_str(description),
        argument_hint: opt_str(argument_hint),
        source: SlashCommandSource::VendoredPrompt,
        kind: SlashCommandKind::Prompt,
    };
    assert(c@.aliases =~= Seq::<Seq<char>>::empty());
    c
}

/// The built-in slash commands, in the order help lists them.
pub fn builtin_command_specs() -> (r: Vec<SlashCommandSpec>)
    ensures
        specs_view(r@) == builtin_specs(),
{
    let mut v: Vec<SlashCommandSpec> = Vec::new();
    v.push(native("help", "Show available commands", None, Some("h")));
    v.push(native("clear", "Clear the active conversation and start a new session", None, None));
    v.push(prompt("init", "Analyze this codebase and create or update rustcode.md", None));
    v.push(native("branch", "Fork the current session, optionally from a user message id", Some("[id]"), Some("fork")));
    v.push(native("compact", "Compact history into a summary and keep recent context", Some("[text]"), None));
    v.push(native("permissions", "Inspect permission rules", None, None));
    v.push(native("model", "Show or change the active model for this session", Some("[name]"), None));
    v.push(native("plan", "Toggle plan mode for architectural design", Some("[prompt|show|open|exit]"), None));
    v.push(native("mcp", "Manage Model Context Protocol servers", Some("[list|add|remove|restart|start|stop]"), None));
    v.push(native("rewind", "Rewind conversation and files to a user message id (or last-user)", Some("<id>"), None));
    v.push(native("rewind-files", "Rewind only files to a user message id (or last-user)", Some("<id>"), None));
    v.push(native("status", "Show current runtime status", None, None));
    v.push(native("resume", "Resume the latest or a matching session", Some("[query]"), None));
    v.push(prompt("review", "Review the current change or target for correctness and risk", Some("[scope]")));
    v.push(prompt("explain", "Explain a file, symbol, or code path", Some("<file-or-topic>")));
    v.push(prompt("fix", "Propose and implement a fix for a problem", Some("<issue>")));
    v.push(prompt("test", "Design or suggest tests for the current workspace or target", Some("[scope]")));
    assert(specs_view(v@) =~= builtin_specs());
    v
}

/// The index of the first command that `name` names.
pub open spec fn find_index(cmds: Seq<SpecView>, name: Seq<char>) -> Option<int>
    decreases cmds.len(),
{
    if cmds.len() == 0 {
        None
    } else if command_matches(cmds[0], name) {
        Some(0)
    } else {
        match find_index(cmds.drop_first(), name) {
            Some(i) => Some(i + 1),
            None => None,
        }
    }
}

/// Whether some command in `cmds` is named by `name`.
pub open spec fn any_matches(cmds: Seq<SpecView>, name: Seq<char>) -> bool {
    exists|i: int| 0 <= i < cmds.len() && command_matches(#[trigger] cmds[i], name)
}

/// `base` extended with each discovered command, in order, unless a command
/// already present is named by its name.
pub open spec fn with_discovered(base: Seq<SpecView>, discovered: Seq<SpecView>) -> Seq<SpecView>
    decreases discovered.len(),
{
    if discovered.len() == 0 {
        base
    } else {
        let r = with_discovered(base, discovered.drop_last());
        if any_matches(r, discovered.last().name) {
            r
        } else {
            r.push(discovered.last())
        }
    }
}

pub proof fn lemma_find_index_at(cmds: Seq<SpecView>, name: Seq<char>, i: int)
    requires
        0 <= i < cmds.len(),
        command_matches(cmds[i], name),
        forall|j: int| 0 <= j < i ==> !command_matches(#[trigger] cmds[j], name),
    ensures
        find_index(cmds, name) == Some(i),
    decreases i,
{
    if i > 0 {
        let rest = cmds.drop_first();
        assert forall|j: int| 0 <= j < i - 1 implies !command_matches(#[trigger] rest[j], name) by {
            assert(rest[j] == cmds[j + 1]);
        }
        lemma_find_index_at(rest, name, i - 1);
    }
}

pub proof fn lemma_find_index_none(cmds: Seq<SpecView>, name: Seq<char>)
    requires
        forall|j: int| 0 <= j < cmds.len() ==> !command_matches(#[trigger] cmds[j], name),
    ensures
        find_index(cmds, name) is None,
    decreases cmds.len(),
{
    if cmds.len() > 0 {
        let rest = cmds.drop_first();
        assert forall|j: int| 0 <= j < rest.len() implies !command_matches(#[trigger] rest[j], name) by {
            assert(rest[j] == cmds[j + 1]);
        }
        lemma_find_index_none(rest, name);
    }
}

/// `find_index` lands on a matching command, and no earlier one matches.
pub proof fn lemma_find_index_spec(cmds: Seq<SpecView>, name: Seq<char>)
    ensures
        match find_index(cmds, name) {
            Some(i) => 0 <= i < cmds.len() && command_matches(cmds[i], name) && forall|j: int|
                0 <= j < i ==> !command_matches(#[trigger] cmds[j], name),
            None => !any_matches(cmds, name),
        },
    decreases cmds.len(),
{
    if cmds.len() > 0 {
        let rest = cmds.drop_first();
        lemma_find_index_spec(rest, name);
        if !command_matches(cmds[0], name) {
            match find_index(rest, name) {
                Some(i) => {
                    assert forall|j: int| 0 <= j < i + 1 implies !command_matches(#[trigger] cmds[j], name) by {
                        if j > 0 {
                            assert(cmds[j] == rest[j - 1]);
                        }
                    }
                },
                None => {
                    assert forall|j: int| 0 <= j < cmds.len() implies !command_matches(#[trigger] cmds[j], name) by {
                        if j > 0 {
                            assert(cmds[j] == rest[j - 1]);
                        }
                    }
                },
            }
        }
    }
}

/// Extending a list keeps the first match of any name that already matched.
pub proof fn lemma_with_discovered_prefix(base: Seq<SpecView>, discovered: Seq<SpecView>)
    ensures
        with_discovered(base, discovered).len() >= base.len(),
        forall|i: int| 0 <= i < base.len() ==> #[trigger] with_discovered(base, discovered)[i] == base[i],
    decreases discovered.len(),
{
    if discovered.len() > 0 {
        lemma_with_discovered_prefix(base, discovered.drop_last());
    }
}

/// Every command appended after `base` is one of the discovered ones.
pub proof fn lemma_with_discovered_tail(base: Seq<SpecView>, discovered: Seq<SpecView>)
    ensures
        forall|i: int|
            base.len() <= i < with_discovered(base, discovered).len() ==> discovered.contains(
                #[trigger] with_discovered(base, discovered)[i],
            ),
    decreases discovered.len(),
{
    if discovered.len() > 0 {
        let d = discovered.drop_last();
        lemma_with_discovered_tail(base, d);
        let r = with_discovered(base, d);
        assert forall|i: int|
            base.len() <= i < with_discovered(base, discovered).len() implies discovered.contains(
            #[trigger] with_discovered(base, discovered)[i],
        ) by {
            if i < r.len() {
                assert(with_discovered(base, discovered)[i] == r[i]);
                let k = choose|k: int| 0 <= k < d.len() && d[k] == r[i];
                assert(discovered[k] == d[k]);
            } else {
                assert(discovered[discovered.len() - 1] == discovered.last());
            }
        }
    }
}

/// The commands of a session: the built-ins, then the discovered markdown
/// commands that no earlier command already answers to.
#[derive(Debug)]
pub struct SlashCommandRegistry {
    commands: Vec<SlashCommandSpec>,
}

impl View for SlashCommandRegistry {
    type V = Seq<SpecView>;

    closed spec fn view(&self) -> Seq<SpecView> {
        specs_view(self.commands@)
    }
}

impl Clone for SlashCommandRegistry {
    fn clone(&self) -> (r: Self)
        ensures
            r@ == self@,
    {
        let mut v: Vec<SlashCommandSpec> = Vec::new();
        let mut i: usize = 0;
        while i < self.commands.len()
            invariant
                i <= self.commands.len(),
                specs_view(v@) == specs_view(self.commands@).subrange(0, i as int),
            decreases self.commands.len() - i,
        {
            let ghost prev = specs_view(v@);
            let c = self.commands[i].clone();
            v.push(c);
            assert(specs_view(v@) =~= prev.push(self.commands@[i as int]@));
            assert(specs_view(v@) =~= specs_view(self.commands@).subrange(0, i + 1));
            i = i + 1;
        }
        assert(specs_view(self.commands@).subrange(0, self.commands.len() as int) =~= specs_view(self.commands@));
        SlashCommandRegistry { commands: v }
    }
}

impl SlashCommandRegistry {
    /// The registry of the built-in commands followed by the `discovered`
    /// markdown commands (read from disk by the caller, each backed by its
    /// file's template), skipping each one whose name an earlier command
    /// already answers to.
    pub fn load(discovered: Vec<SlashCommandSpec>) -> (r: Self)
        requires
            forall|i: int| 0 <= i < discovered@.len() ==> (#[trigger] discovered@[i])@.kind is FileBacked,
        ensures
            r@ == with_discovered(builtin_specs(), specs_view(discovered@)),
            forall|i: int| builtin_specs().len() <= i < r@.len() ==> (#[trigger] r@[i]).kind is FileBacked,
    {
        let mut commands = builtin_command_specs();
        let ghost dv = specs_view(discovered@);
        let mut i: usize = 0;
        while i < discovered.len()
            invariant
                i <= discovered.len(),
                dv == specs_view(discovered@),
                specs_view(commands@) == with_discovered(builtin_specs(), dv.subrange(0, i as int)),
            decreases discovered.len() - i,
        {
            let ghost before = specs_view(commands@);
            assert(dv.subrange(0, i + 1).drop_last() =~= dv.subrange(0, i as int));
            let name = &discovered[i].name;
            assert(dv[i as int] == discovered@[i as int]@);
            assert(dv.subrange(0, i + 1).last() == dv[i as int]);
            let mut shadowed = false;
            let mut j: usize = 0;
            while j < commands.len() && !shadowed
                invariant
                    j <= commands.len(),
                    i < discovered.len(),
                    dv.len() == discovered.len(),
                    before == specs_view(commands@),
                    name@ == dv[i as int].name,
                    !shadowed ==> forall|k: int| 0 <= k < j ==> !command_matches(#[trigger] before[k], name@),
                    shadowed ==> any_matches(before, name@),
                decreases commands.len() - j,
            {
                assert(before[j as int] == commands@[j as int]@);
                if commands[j].matches(name.as_str()) {
                    assert(command_matches(before[j as int], name@));
                    shadowed = true;
                }
                j = j + 1;
            }
            if !shadowed {
                let c = discovered[i].clone();
                commands.push(c);
                assert(specs_view(commands@) =~= before.push(dv[i as int]));
            }
            i = i + 1;
        }
        assert(dv.subrange(0, discovered.len() as int) =~= dv);
        proof {
            lemma_with_discovered_tail(builtin_specs(), dv);
            assert forall|k: int| 0 <= k < dv.len() implies (#[trigger] dv[k]).kind is FileBacked by {
                assert(dv[k] == discovered@[k]@);
            }
        }
        SlashCommandRegistry { commands }
    }

    /// Every command, in order.
    pub fn all(&self) -> (r: &[SlashCommandSpec])
        ensures
            specs_view(r@) == self@,
    {
        self.commands.as_slice()
    }

    /// The first command that `name` names, ignoring ASCII case.
    pub fn find(&self, name: &str) -> (r: Option<&SlashCommandSpec>)
        ensures
            match find_index(self@, name@) {
                Some(i) => r is Some && r.unwrap()@ == self@[i],
                None => r is None,
            },
    {
        let mut i: usize = 0;
        while i < self.commands.len()
            invariant
                i <= self.commands.len(),
                forall|j: int| 0 <= j < i ==> !command_matches(#[trigger] self@[j], name@),
            decreases self.commands.len() - i,
        {
            if self.commands[i].matches(name) {
                proof {
                    lemma_find_index_at(self@, name@, i as int);
                }
                return Some(&self.commands[i]);
            }
            i = i + 1;
        }
        proof {
            lemma_find_index_none(self@, name@);
        }
        None
    }
}

/// A built-in command keeps its place: whatever markdown commands are
/// discovered, a name that one of the built-ins answers to finds the same
/// built-in in the registry.
pub proof fn law_builtins_are_never_shadowed(discovered: Seq<SpecView>, name: Seq<char>)
    requires
        any_matches(builtin_specs(), name),
    ensures
        find_index(with_discovered(builtin_specs(), discovered), name) == find_index(builtin_specs(), name),
{
    let b = builtin_specs();
    let r = with_discovered(b, discovered);
    lemma_with_discovered_prefix(b, discovered);
    lemma_find_index_spec(b, name);
    let i = find_index(b, name)->0;
    assert(r[i] == b[i]);
    assert forall|j: int| 0 <= j < i implies !command_matches(#[trigger] r[j], name) by {
        assert(r[j] == b[j]);
    }
    lemma_find_index_at(r, name, i);
}

/// A discovered command never replaces a built-in: whatever markdown
/// commands are discovered, the registry starts with the built-ins,
/// unchanged and in order.
pub proof fn law_registry_keeps_builtins(discovered: Seq<SpecView>)
    ensures
        with_discovered(builtin_specs(), discovered).subrange(0, builtin_specs().len() as int)
            == builtin_specs(),
{
    lemma_with_discovered_prefix(builtin_specs(), discovered);
    assert(with_discovered(builtin_specs(), discovered).subrange(0, builtin_specs().len() as int)
        =~= builtin_specs());
}

} // verus!
