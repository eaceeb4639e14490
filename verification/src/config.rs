//! Settings: their defaults, project-local overrides and how they merge,
//! the project directory layout, and `key = value` updates.

use vstd::prelude::*;
use crate::api_config::{ApiConfig, EnvSnapshot};
use crate::compact::CompactSettings;
use crate::permissions::{
    PermissionMode, PermissionsSettings, clone_strings, remove_rule, remove_rule_spec,
};
use crate::text::{
    concat, eq_ignore_case, eq_ignore_case_str, has_suffix, opt_view, views,
};

verus! {

/// Whether sessions are restored and persisted.
#[derive(Debug, Clone, Copy, PartialEq, Eq, Structural)]
pub struct SessionSettings {
    pub auto_restore_last_session: bool,
    pub persist_transcript: bool,
}

impl Default for SessionSettings {
    fn default() -> (s: Self)
        ensures
            s.auto_restore_last_session && s.persist_transcript,
    {
        SessionSettings { auto_restore_last_session: true, persist_transcript: true }
    }
}

/// Project-local overrides of the session settings.
#[derive(Debug, Clone, Copy, PartialEq, Eq, Structural)]
pub struct ProjectLocalSessionSettings {
    pub auto_restore_last_session: Option<bool>,
    pub persist_transcript: Option<bool>,
}

/// Project-local permission overrides.
#[derive(Debug)]
pub struct ProjectLocalPermissions {
    pub mode: Option<PermissionMode>,
    pub allow_tools: Vec<String>,
    pub deny_tools: Vec<String>,
    pub ask_tools: Vec<String>,
}

/// The mathematical value of project-local permission overrides.
pub struct LocalPermissionsView {
    pub mode: Option<PermissionMode>,
    pub allow: Seq<Seq<char>>,
    pub deny: Seq<Seq<char>>,
    pub ask: Seq<Seq<char>>,
}

impl View for ProjectLocalPermissions {
    type V = LocalPermissionsView;

    open spec fn view(&self) -> LocalPermissionsView {
        LocalPermissionsView {
            mode: self.mode,
            allow: views(self.allow_tools@),
            deny: views(self.deny_tools@),
            ask: views(self.ask_tools@),
        }
    }
}

impl Clone for ProjectLocalPermissions {
    fn clone(&self) -> (r: Self)
        ensures
            r@ == self@,
    {
        ProjectLocalPermissions {
            mode: self.mode,
            allow_tools: clone_strings(&self.allow_tools),
            deny_tools: clone_strings(&self.deny_tools),
            ask_tools: clone_strings(&self.ask_tools),
        }
    }
}

impl Default for ProjectLocalPermissions {
    fn default() -> (p: Self)
        ensures
            p@.mode is None,
            p@.allow.len() == 0,
            p@.deny.len() == 0,
            p@.ask.len() == 0,
    {
        ProjectLocalPermissions {
            mode: None,
            allow_tools: Vec::new(),
            deny_tools: Vec::new(),
            ask_tools: Vec::new(),
        }
    }
}

/// The project-local settings file.
#[derive(Debug)]
pub struct ProjectLocalSettings {
    pub permissions: Option<ProjectLocalPermissions>,
    pub session: Option<ProjectLocalSessionSettings>,
}

/// Which project-local rule list a change concerns.
#[derive(Debug, Clone, Copy, PartialEq, Eq, Structural)]
pub enum ProjectPermissionRuleKind {
    Allow,
    Deny,
    Ask,
}

/// `rules` with `tool` appended unless an entry equal to it up to ASCII case
/// is already there.
pub open spec fn push_ci_spec(rules: Seq<Seq<char>>, tool: Seq<char>) -> Seq<Seq<char>> {
    if exists|i: int| 0 <= i < rules.len() && eq_ignore_case(#[trigger] rules[i], tool) {
        rules
    } else {
        rules.push(tool)
    }
}

/// `global` with each rule of `local` added unless already present up to
/// ASCII case.
pub open spec fn merge_rules_spec(global: Seq<Seq<char>>, local: Seq<Seq<char>>) -> Seq<Seq<char>>
    decreases local.len(),
{
    if local.len() == 0 {
        global
    } else {
        push_ci_spec(merge_rules_spec(global, local.drop_last()), local.last())
    }
}

/// Appends `tool_name` unless an entry equal to it up to ASCII case exists.
pub fn project_permissions_push(rules: &mut Vec<String>, tool_name: &str)
    ensures
        views(final(rules)@) == push_ci_spec(views(old(rules)@), tool_name@),
{
    let ghost rv = views(rules@);
    let mut i: usize = 0;
    while i < rules.len()
        invariant
            i <= rules.len(),
            rv == views(rules@),
            forall|j: int| 0 <= j < i ==> !eq_ignore_case(#[trigger] rv[j], tool_name@),
        decreases rules.len() - i,
    {
        if eq_ignore_case_str(rules[i].as_str(), tool_name) {
            assert(eq_ignore_case(rv[i as int], tool_name@));
            return;
        }
        i = i + 1;
    }
    rules.push(String::from_str(tool_name));
    assert(views(rules@) =~= rv.push(tool_name@));
}

/// The union of two rule lists: `global` first, then the new rules of
/// `local`.
pub fn merge_rule_lists(global: &Vec<String>, local: &Vec<String>) -> (r: Vec<String>)
    ensures
        views(r@) == merge_rules_spec(views(global@), views(local@)),
{
    let mut merged = clone_strings(global);
    let mut i: usize = 0;
    while i < local.len()
        invariant
            i <= local.len(),
            views(merged@) == merge_rules_spec(views(global@), views(local@).subrange(0, i as int)),
        decreases local.len() - i,
    {
        assert(views(local@).subrange(0, i + 1).drop_last() =~= views(local@).subrange(0, i as int));
        project_permissions_push(&mut merged, local[i].as_str());
        i = i + 1;
    }
    assert(views(local@).subrange(0, local.len() as int) =~= views(local@));
    merged
}

/// The permissions in effect once project-local overrides apply: the local
/// mode when set, and the union of each rule list.
pub open spec fn merge_permissions_spec(
    global: crate::permissions::PermissionsView,
    local: Option<LocalPermissionsView>,
) -> crate::permissions::PermissionsView {
    match local {
        None => global,
        Some(l) => crate::permissions::PermissionsView {
            mode: match l.mode {
                Some(m) => m,
                None => global.mode,
            },
            allow: merge_rules_spec(global.allow, l.allow),
            deny: merge_rules_spec(global.deny, l.deny),
            ask: merge_rules_spec(global.ask, l.ask),
        },
    }
}

/// The permissions in effect once project-local overrides apply.
pub fn merge_permissions(global: &PermissionsSettings, local: Option<&ProjectLocalPermissions>) -> (r: PermissionsSettings)
    ensures
        r@ == merge_permissions_spec(
            global@,
            match local {
                Some(l) => Some(l@),
                None => None,
            },
        ),
{
    match local {
        None => global.clone(),
        Some(l) => PermissionsSettings {
            mode: match l.mode {
                Some(m) => m,
                None => global.mode,
            },
            allow_tools: merge_rule_lists(&global.allow_tools, &l.allow_tools),
            deny_tools: merge_rule_lists(&global.deny_tools, &l.deny_tools),
            ask_tools: merge_rule_lists(&global.ask_tools, &l.ask_tools),
        },
    }
}

/// The session settings in effect: each local value overrides its global one.
pub fn merge_session(global: &SessionSettings, local: Option<&ProjectLocalSessionSettings>) -> (r: SessionSettings)
    ensures
        match local {
            None => r == *global,
            Some(l) => r == (SessionSettings {
                auto_restore_last_session: match l.auto_restore_last_session {
                    Some(b) => b,
                    None => global.auto_restore_last_session,
                },
                persist_transcript: match l.persist_transcript {
                    Some(b) => b,
                    None => global.persist_transcript,
                },
            }),
        },
{
    match local {
        None => *global,
        Some(l) => SessionSettings {
            auto_restore_last_session: match l.auto_restore_last_session {
                Some(b) => b,
                None => global.auto_restore_last_session,
            },
            persist_transcript: match l.persist_transcript {
                Some(b) => b,
                None => global.persist_transcript,
            },
        },
    }
}

/// Drops `tool_name` (up to ASCII case) from all three local rule lists.
pub fn project_permissions_remove(permissions: &mut ProjectLocalPermissions, tool_name: &str)
    ensures
        final(permissions)@ == (LocalPermissionsView {
            mode: old(permissions)@.mode,
            allow: remove_rule_spec(old(permissions)@.allow, tool_name@),
            deny: remove_rule_spec(old(permissions)@.deny, tool_name@),
            ask: remove_rule_spec(old(permissions)@.ask, tool_name@),
        }),
{
    remove_rule(&mut permissions.allow_tools, tool_name);
    remove_rule(&mut permissions.deny_tools, tool_name);
    remove_rule(&mut permissions.ask_tools, tool_name);
}

/// The local overrides once `tool` is filed under `kind` alone.
pub open spec fn after_local_add(p: LocalPermissionsView, kind: ProjectPermissionRuleKind, tool: Seq<char>) -> LocalPermissionsView {
    let allow = remove_rule_spec(p.allow, tool);
    let deny = remove_rule_spec(p.deny, tool);
    let ask = remove_rule_spec(p.ask, tool);
    LocalPermissionsView {
        mode: p.mode,
        allow: if kind == ProjectPermissionRuleKind::Allow { push_ci_spec(allow, tool) } else { allow },
        deny: if kind == ProjectPermissionRuleKind::Deny { push_ci_spec(deny, tool) } else { deny },
        ask: if kind == ProjectPermissionRuleKind::Ask { push_ci_spec(ask, tool) } else { ask },
    }
}

/// The local overrides once `tool` is dropped from the `kind` list.
pub open spec fn after_local_remove(p: LocalPermissionsView, kind: ProjectPermissionRuleKind, tool: Seq<char>) -> LocalPermissionsView {
    LocalPermissionsView {
        mode: p.mode,
        allow: if kind == ProjectPermissionRuleKind::Allow { remove_rule_spec(p.allow, tool) } else { p.allow },
        deny: if kind == ProjectPermissionRuleKind::Deny { remove_rule_spec(p.deny, tool) } else { p.deny },
        ask: if kind == ProjectPermissionRuleKind::Ask { remove_rule_spec(p.ask, tool) } else { p.ask },
    }
}

/// The view of the local permissions, empty ones when absent.
pub open spec fn local_permissions_or_default(p: Option<ProjectLocalPermissions>) -> LocalPermissionsView {
    match p {
        Some(x) => x@,
        None => LocalPermissionsView {
            mode: None,
            allow: Seq::empty(),
            deny: Seq::empty(),
            ask: Seq::empty(),
        },
    }
}

impl ProjectLocalSettings {
    /// Files `tool_name` under `kind` alone (removing it from every list
    /// first) and returns the resulting local permissions.
    pub fn add_permission_rule(&mut self, kind: ProjectPermissionRuleKind, tool_name: &str) -> (r: ProjectLocalPermissions)
        ensures
            final(self).permissions is Some,
            r@ == after_local_add(local_permissions_or_default(old(self).permissions), kind, tool_name@),
            final(self).permissions.unwrap()@ == r@,
            final(self).session == old(self).session,
    {
        let mut p = match self.permissions.take() {
            Some(p) => p,
            None => ProjectLocalPermissions::default(),
        };
        assert(p@ =~= local_permissions_or_default(old(self).permissions)) by {
            if old(self).permissions is None {
                assert(p@.allow =~= Seq::<Seq<char>>::empty());
                assert(p@.deny =~= Seq::<Seq<char>>::empty());
                assert(p@.ask =~= Seq::<Seq<char>>::empty());
            }
        }
        project_permissions_remove(&mut p, tool_name);
        match kind {
            ProjectPermissionRuleKind::Allow => project_permissions_push(&mut p.allow_tools, tool_name),
            ProjectPermissionRuleKind::Deny => project_permissions_push(&mut p.deny_tools, tool_name),
            ProjectPermissionRuleKind::Ask => project_permissions_push(&mut p.ask_tools, tool_name),
        }
        let r = p.clone();
        self.permissions = Some(p);
        r
    }

    /// Drops `tool_name` (up to ASCII case) from the `kind` list and returns
    /// the resulting local permissions.
    pub fn remove_permission_rule(&mut self, kind: ProjectPermissionRuleKind, tool_name: &str) -> (r: ProjectLocalPermissions)
        ensures
            final(self).permissions is Some,
            r@ == after_local_remove(local_permissions_or_default(old(self).permissions), kind, tool_name@),
            final(self).permissions.unwrap()@ == r@,
            final(self).session == old(self).session,
    {
        let mut p = match self.permissions.take() {
            Some(p) => p,
            None => ProjectLocalPermissions::default(),
        };
        assert(p@ =~= local_permissions_or_default(old(self).permissions)) by {
            if old(self).permissions is None {
                assert(p@.allow =~= Seq::<Seq<char>>::empty());
                assert(p@.deny =~= Seq::<Seq<char>>::empty());
                assert(p@.ask =~= Seq::<Seq<char>>::empty());
            }
        }
        match kind {
            ProjectPermissionRuleKind::Allow => remove_rule(&mut p.allow_tools, tool_name),
            ProjectPermissionRuleKind::Deny => remove_rule(&mut p.deny_tools, tool_name),
            ProjectPermissionRuleKind::Ask => remove_rule(&mut p.ask_tools, tool_name),
        }
        let r = p.clone();
        self.permissions = Some(p);
        r
    }
}

/// Whether some rule of `rules` equals `tool` up to ASCII case.
pub open spec fn mentions(rules: Seq<Seq<char>>, tool: Seq<char>) -> bool {
    exists|i: int| 0 <= i < rules.len() && eq_ignore_case(#[trigger] rules[i], tool)
}

proof fn lemma_push_ci(rules: Seq<Seq<char>>, tool: Seq<char>)
    ensures
        mentions(push_ci_spec(rules, tool), tool),
        push_ci_spec(rules, tool).len() >= rules.len(),
        forall|i: int| 0 <= i < rules.len() ==> #[trigger] push_ci_spec(rules, tool)[i] == rules[i],
{
    let r = push_ci_spec(rules, tool);
    if !(exists|i: int| 0 <= i < rules.len() && eq_ignore_case(#[trigger] rules[i], tool)) {
        assert(eq_ignore_case(r[rules.len() as int], tool));
    }
}

proof fn lemma_merge_union(global: Seq<Seq<char>>, local: Seq<Seq<char>>)
    ensures
        merge_rules_spec(global, local).len() >= global.len(),
        forall|i: int| 0 <= i < global.len() ==> #[trigger] merge_rules_spec(global, local)[i] == global[i],
        forall|j: int| 0 <= j < local.len() ==> mentions(merge_rules_spec(global, local), #[trigger] local[j]),
    decreases local.len(),
{
    if local.len() > 0 {
        let prev = local.drop_last();
        lemma_merge_union(global, prev);
        let m = merge_rules_spec(global, prev);
        lemma_push_ci(m, local.last());
        let n = merge_rules_spec(global, local);
        assert forall|j: int| 0 <= j < local.len() implies mentions(n, #[trigger] local[j]) by {
            if j < local.len() - 1 {
                assert(local[j] == prev[j]);
                assert(mentions(m, prev[j]));
                let i = choose|i: int| 0 <= i < m.len() && eq_ignore_case(#[trigger] m[i], prev[j]);
                assert(n[i] == m[i]);
            }
        }
    }
}

/// Merging rule lists is a union: the global rules come first, unchanged
/// and in order, and every local rule is in the result up to ASCII case.
pub proof fn law_merge_is_union(global: Seq<Seq<char>>, local: Seq<Seq<char>>)
    ensures
        merge_rules_spec(global, local).subrange(0, global.len() as int) == global,
        forall|j: int| 0 <= j < local.len() ==> mentions(merge_rules_spec(global, local), #[trigger] local[j]),
{
    lemma_merge_union(global, local);
    assert(merge_rules_spec(global, local).subrange(0, global.len() as int) =~= global);
}

proof fn lemma_removed_not_mentioned(rules: Seq<Seq<char>>, tool: Seq<char>)
    ensures
        !mentions(remove_rule_spec(rules, tool), tool),
{
    crate::permissions::lemma_remove_members(rules, tool);
}

/// The rule list of one kind.
pub open spec fn rules_of(p: LocalPermissionsView, kind: ProjectPermissionRuleKind) -> Seq<Seq<char>> {
    match kind {
        ProjectPermissionRuleKind::Allow => p.allow,
        ProjectPermissionRuleKind::Deny => p.deny,
        ProjectPermissionRuleKind::Ask => p.ask,
    }
}

/// A project-local rule lives in one list: once a tool is filed under a
/// kind, that kind's list holds it (up to ASCII case) and the other two do
/// not; removing it from that kind then leaves no list holding it.
pub proof fn law_local_rule_in_one_list(
    p: LocalPermissionsView,
    kind: ProjectPermissionRuleKind,
    other: ProjectPermissionRuleKind,
    tool: Seq<char>,
)
    requires
        other != kind,
    ensures
        mentions(rules_of(after_local_add(p, kind, tool), kind), tool),
        !mentions(rules_of(after_local_add(p, kind, tool), other), tool),
        !mentions(rules_of(after_local_remove(after_local_add(p, kind, tool), kind, tool), kind), tool),
        !mentions(rules_of(after_local_remove(after_local_add(p, kind, tool), kind, tool), other), tool),
{
    lemma_removed_not_mentioned(p.allow, tool);
    lemma_removed_not_mentioned(p.deny, tool);
    lemma_removed_not_mentioned(p.ask, tool);
    let n = after_local_add(p, kind, tool);
    lemma_push_ci(remove_rule_spec(rules_of(p, kind), tool), tool);
    lemma_removed_not_mentioned(rules_of(n, kind), tool);
}

} // verus!
