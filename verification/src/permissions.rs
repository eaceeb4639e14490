//! Tool permission rules: allow / ask / deny lists with `*` wildcards, and
//! the decision taken for a tool call.

use vstd::prelude::*;
use crate::text::{
    chars_of, concat, eq_ignore_case, eq_ignore_case_str, find_from, has_char, has_suffix,
    is_blank, lower, lower_char, lower_vec, occurs_at, occurs_at_vec, string_of, trim, trim_bounds, vec_eq,
    vec_has_char, views,
};
use crate::runtime::{RuntimeToolCall, RuntimeToolResult};

verus! {

/// The pieces of `s` between runs of `*` (empty pieces left out).
pub open spec fn star_parts(s: Seq<char>) -> Seq<Seq<char>>
    decreases s.len(),
{
    if s.len() == 0 {
        Seq::<Seq<char>>::empty()
    } else {
        let r = star_parts(s.drop_last());
        if s.last() == '*' {
            r
        } else if s.len() >= 2 && s[s.len() - 2] != '*' {
            r.update(r.len() - 1, r.last().push(s.last()))
        } else {
            r.push(seq![s.last()])
        }
    }
}

/// `q` places each of `parts`, in order and without overlap, in `c`.
pub open spec fn placed(c: Seq<char>, parts: Seq<Seq<char>>, q: Seq<int>) -> bool {
    &&& q.len() == parts.len()
    &&& forall|i: int| 0 <= i < q.len() ==> occurs_at(c, #[trigger] parts[i], q[i])
    &&& forall|i: int| 0 <= i < q.len() - 1 ==> #[trigger] q[i] + parts[i].len() <= q[i + 1]
}

/// A placement that starts at the beginning of `c` when `at_start` holds.
pub open spec fn placed_from_start(c: Seq<char>, parts: Seq<Seq<char>>, q: Seq<int>, at_start: bool) -> bool {
    placed(c, parts, q) && (at_start ==> q[0] == 0)
}

/// A placement anchored at the start and/or the end of `c`.
pub open spec fn anchored(
    c: Seq<char>,
    parts: Seq<Seq<char>>,
    q: Seq<int>,
    at_start: bool,
    at_end: bool,
) -> bool {
    placed_from_start(c, parts, q, at_start) && (at_end ==> q.last() + parts.last().len()
        == c.len())
}

/// `q` places the pieces of `pattern` in `candidate`, anchored at the start
/// unless the pattern starts with `*` and at the end unless it ends with `*`.
pub open spec fn anchored_for(pattern: Seq<char>, candidate: Seq<char>, q: Seq<int>) -> bool {
    anchored(candidate, star_parts(pattern), q, pattern[0] != '*', pattern.last() != '*')
}

/// Whether `candidate` matches `pattern`, where `*` stands for any run of
/// characters: without `*` the two are equal; otherwise the candidate is the
/// pattern's non-empty pieces in order with anything between them, and with
/// nothing before (after) them unless the pattern starts (ends) with `*`.
pub open spec fn pattern_matches(pattern: Seq<char>, candidate: Seq<char>) -> bool {
    if !has_char(pattern, '*') {
        pattern == candidate
    } else {
        star_parts(pattern).len() == 0 || exists|q: Seq<int>|
            #[trigger] anchored_for(pattern, candidate, q)
    }
}

proof fn lemma_star_parts_nonempty(s: Seq<char>)
    requires
        exists|i: int| 0 <= i < s.len() && s[i] != '*',
    ensures
        star_parts(s).len() > 0,
    decreases s.len(),
{
    if s.last() == '*' {
        let i = choose|i: int| 0 <= i < s.len() && s[i] != '*';
        assert(s.drop_last()[i] == s[i]);
        lemma_star_parts_nonempty(s.drop_last());
    } else if s.len() >= 2 && s[s.len() - 2] != '*' {
        assert(s.drop_last()[s.len() - 2] != '*');
        lemma_star_parts_nonempty(s.drop_last());
    }
}

proof fn lemma_star_parts_two(s: Seq<char>)
    requires
        has_char(s, '*'),
        s[0] != '*',
        s.last() != '*',
    ensures
        star_parts(s).len() >= 2,
    decreases s.len(),
{
    let t = s.drop_last();
    let j = choose|j: int| 0 <= j < s.len() && s[j] == '*';
    if s[s.len() - 2] == '*' {
        assert(t[0] != '*');
        lemma_star_parts_nonempty(t);
    } else {
        assert(t[j] == '*');
        assert(t.last() == s[s.len() - 2]);
        lemma_star_parts_two(t);
    }
}

/// The views of a vector of character vectors.
pub open spec fn vviews(v: Seq<Vec<char>>) -> Seq<Seq<char>> {
    v.map_values(|x: Vec<char>| x@)
}

/// The non-empty pieces of `s` between runs of `*`.
pub fn star_parts_exec(s: &Vec<char>) -> (r: Vec<Vec<char>>)
    ensures
        vviews(r@) == star_parts(s@),
        forall|i: int| 0 <= i < r@.len() ==> (#[trigger] r@[i])@.len() > 0,
{
    let mut pieces: Vec<Vec<char>> = Vec::new();
    let mut cur: Vec<char> = Vec::new();
    let mut i: usize = 0;
    assert(s@.subrange(0, 0) =~= Seq::<char>::empty());
    while i < s.len()
        invariant
            i <= s.len(),
            cur@.len() == 0 ==> vviews(pieces@) == star_parts(s@.subrange(0, i as int)),
            cur@.len() > 0 ==> vviews(pieces@).push(cur@) == star_parts(
                s@.subrange(0, i as int),
            ),
            cur@.len() > 0 ==> i > 0 && s@[i - 1] != '*',
            cur@.len() == 0 && i > 0 ==> s@[i - 1] == '*',
            forall|k: int| 0 <= k < pieces@.len() ==> (#[trigger] pieces@[k])@.len() > 0,
        decreases s.len() - i,
    {
        let ghost before = s@.subrange(0, i as int);
        let ghost old_views = vviews(pieces@);
        let ghost old_cur = cur@;
        let c = s[i];
        let ghost after = s@.subrange(0, i + 1);
        assert(after.drop_last() =~= before);
        assert(after.last() == c);
        if c == '*' {
            if cur.len() > 0 {
                pieces.push(cur);
                cur = Vec::new();
                assert(vviews(pieces@) =~= old_views.push(old_cur));
            }
        } else {
            let had = cur.len() > 0;
            cur.push(c);
            if had {
                let ghost r = star_parts(before);
                assert(after[after.len() - 2] == s@[i - 1]);
                assert(vviews(pieces@).push(cur@) =~= r.update(r.len() - 1, r.last().push(c)));
            } else {
                if i > 0 {
                    assert(after[after.len() - 2] == s@[i - 1]);
                }
                assert(cur@ =~= seq![c]);
                assert(vviews(pieces@).push(cur@) =~= star_parts(before).push(seq![c]));
            }
        }
        i = i + 1;
    }
    assert(s@.subrange(0, s.len() as int) =~= s@);
    if cur.len() > 0 {
        let ghost old_views = vviews(pieces@);
        let ghost old_cur = cur@;
        pieces.push(cur);
        assert(vviews(pieces@) =~= old_views.push(old_cur));
    }
    pieces
}

proof fn lemma_missing_part(
    c: Seq<char>,
    pv: Seq<Seq<char>>,
    at_start: bool,
    at_end: bool,
    i: int,
    position: int,
)
    requires
        0 <= i < pv.len(),
        forall|q: Seq<int>| #[trigger] placed_from_start(c, pv, q, at_start) ==> position <= q[i],
        forall|j: int| position <= j ==> !occurs_at(c, pv[i], j),
    ensures
        forall|q: Seq<int>| !#[trigger] anchored(c, pv, q, at_start, at_end),
{
    assert forall|q: Seq<int>| !#[trigger] anchored(c, pv, q, at_start, at_end) by {
        if anchored(c, pv, q, at_start, at_end) {
            assert(placed_from_start(c, pv, q, at_start));
            assert(occurs_at(c, pv[i], q[i]));
        }
    }
}

proof fn lemma_first_part_not_at_start(
    c: Seq<char>,
    pv: Seq<Seq<char>>,
    at_start: bool,
    at_end: bool,
    found: int,
)
    requires
        pv.len() > 0,
        at_start,
        found > 0,
        forall|j: int| 0 <= j < found ==> !occurs_at(c, pv[0], j),
    ensures
        forall|q: Seq<int>| !#[trigger] anchored(c, pv, q, at_start, at_end),
{
    assert forall|q: Seq<int>| !#[trigger] anchored(c, pv, q, at_start, at_end) by {
        if anchored(c, pv, q, at_start, at_end) {
            assert(placed_from_start(c, pv, q, at_start));
            assert(occurs_at(c, pv[0], q[0]));
        }
    }
}

proof fn lemma_greedy_step(
    c: Seq<char>,
    pv: Seq<Seq<char>>,
    at_start: bool,
    i: int,
    position: int,
    found: int,
)
    requires
        0 <= i < pv.len(),
        forall|q: Seq<int>| #[trigger] placed_from_start(c, pv, q, at_start) ==> position <= q[i],
        forall|j: int| position <= j < found ==> !occurs_at(c, pv[i], j),
    ensures
        forall|q: Seq<int>| #[trigger] placed_from_start(c, pv, q, at_start) && i + 1 < pv.len()
            ==> found + pv[i].len() <= q[i + 1],
{
    assert forall|q: Seq<int>| #[trigger] placed_from_start(c, pv, q, at_start) && i + 1
        < pv.len() implies found + pv[i].len() <= q[i + 1] by {
        assert(occurs_at(c, pv[i], q[i]));
        assert(q[i] + pv[i].len() <= q[i + 1]);
    }
}

proof fn lemma_extend_placement(c: Seq<char>, pv: Seq<Seq<char>>, g: Seq<int>, i: int, found: int)
    requires
        0 <= i < pv.len(),
        g.len() == i,
        placed(c, pv.subrange(0, i), g),
        occurs_at(c, pv[i], found),
        i > 0 ==> g.last() + pv[i - 1].len() <= found,
    ensures
        placed(c, pv.subrange(0, i + 1), g.push(found)),
{
    let ng = g.push(found);
    let npv = pv.subrange(0, i + 1);
    assert forall|k: int| 0 <= k < ng.len() implies occurs_at(c, #[trigger] npv[k], ng[k]) by {
        if k < i {
            assert(npv[k] == pv.subrange(0, i)[k]);
        }
    }
    assert forall|k: int| 0 <= k < ng.len() - 1 implies #[trigger] ng[k] + npv[k].len() <= ng[k
        + 1] by {
        if k < i - 1 {
            assert(npv[k] == pv.subrange(0, i)[k]);
        }
    }
}

proof fn lemma_end_anchor(
    pattern: Seq<char>,
    c: Seq<char>,
    pv: Seq<Seq<char>>,
    g: Seq<int>,
    at_start: bool,
    at_end: bool,
)
    requires
        pv == star_parts(pattern),
        has_char(pattern, '*'),
        at_start == (pattern[0] != '*'),
        at_end,
        at_end == (pattern.last() != '*'),
        pv.len() > 0,
        placed_from_start(c, pv, g, at_start),
    ensures
        (exists|q: Seq<int>| #[trigger] anchored_for(pattern, c, q)) == has_suffix(c, pv.last()),
{
    let k = pv.len() - 1;
    let lp = pv.last();
    if has_suffix(c, lp) {
        if at_start {
            lemma_star_parts_two(pattern);
        }
        let ng = g.update(k, c.len() - lp.len());
        assert(occurs_at(c, pv[k], g[k]));
        assert(c.subrange(c.len() - lp.len(), c.len() as int) == lp);
        assert(occurs_at(c, pv[k], ng[k]));
        assert forall|j: int| 0 <= j < ng.len() implies occurs_at(c, #[trigger] pv[j], ng[j]) by {
            if j < k {
                assert(ng[j] == g[j]);
            }
        }
        assert forall|j: int| 0 <= j < ng.len() - 1 implies #[trigger] ng[j] + pv[j].len()
            <= ng[j + 1] by {
            assert(g[j] + pv[j].len() <= g[j + 1]);
        }
        assert(anchored(c, pv, ng, at_start, at_end));
        assert(anchored_for(pattern, c, ng));
    } else {
        assert forall|q: Seq<int>| !#[trigger] anchored(c, pv, q, at_start, at_end) by {
            if anchored(c, pv, q, at_start, at_end) {
                assert(placed(c, pv, q));
                assert(occurs_at(c, pv[k], q[k]));
                assert(q.last() == q[k]);
                assert(q[k] == c.len() - lp.len());
                assert(c.subrange(q[k], q[k] + lp.len()) == lp);
                assert(has_suffix(c, lp));
            }
        }
        assert forall|q: Seq<int>| !#[trigger] anchored_for(pattern, c, q) by {
            assert(!anchored(c, pv, q, at_start, at_end));
        }
    }
}

/// `*`-wildcard matching of `candidate` against `pattern`: each `*` stands
/// for any run of characters, everything else must match exactly, and the
/// pattern covers the whole candidate.
pub fn wildcard_match(pattern: &str, candidate: &str) -> (r: bool)
    ensures
        r == pattern_matches(pattern@, candidate@),
{
    let p = chars_of(pattern);
    let c = chars_of(candidate);
    wildcard_match_chars(&p, &c)
}

/// `*`-wildcard matching over characters.
pub fn wildcard_match_chars(pattern: &Vec<char>, candidate: &Vec<char>) -> (r: bool)
    ensures
        r == pattern_matches(pattern@, candidate@),
{
    if !vec_has_char(pattern, '*') {
        return vec_eq(pattern, candidate);
    }
    let at_start = pattern[0] != '*';
    let at_end = pattern[pattern.len() - 1] != '*';
    let parts = star_parts_exec(pattern);
    let ghost pv = vviews(parts@);
    let ghost c = candidate@;
    if parts.len() == 0 {
        return true;
    }
    assert forall|q: Seq<int>| #[trigger] placed_from_start(c, pv, q, at_start) implies 0 <= q[0] by {
        assert(occurs_at(c, pv[0], q[0]));
    }
    let mut position: usize = 0;
    let ghost mut g: Seq<int> = Seq::empty();
    let mut i: usize = 0;
    while i < parts.len()
        invariant
            i <= parts.len(),
            pv == vviews(parts@),
            pv == star_parts(pattern@),
            c == candidate@,
            parts.len() > 0,
            has_char(pattern@, '*'),
            at_start == (pattern@[0] != '*'),
            at_end == (pattern@.last() != '*'),
            g.len() == i,
            i == 0 ==> position == 0,
            i > 0 ==> position == g.last() + pv[i - 1].len(),
            i > 0 && at_start ==> g[0] == 0,
            position <= c.len(),
            placed(c, pv.subrange(0, i as int), g),
            forall|q: Seq<int>|
                #[trigger] placed_from_start(c, pv, q, at_start) && i < pv.len() ==> position
                    <= q[i as int],
        decreases parts.len() - i,
    {
        assert(parts[i as int]@ == pv[i as int]);
        match find_from(candidate, &parts[i], position) {
            None => {
                proof {
                    lemma_missing_part(c, pv, at_start, at_end, i as int, position as int);
                    assert forall|q: Seq<int>| !#[trigger] anchored_for(pattern@, c, q) by {
                        assert(!anchored(c, pv, q, at_start, at_end));
                    }
                }
                return false;
            },
            Some(found) => {
                if i == 0 && at_start && found != 0 {
                    proof {
                        lemma_first_part_not_at_start(c, pv, at_start, at_end, found as int);
                        assert forall|q: Seq<int>| !#[trigger] anchored_for(pattern@, c, q) by {
                            assert(!anchored(c, pv, q, at_start, at_end));
                        }
                    }
                    return false;
                }
                proof {
                    lemma_greedy_step(c, pv, at_start, i as int, position as int, found as int);
                    lemma_extend_placement(c, pv, g, i as int, found as int);
                    g = g.push(found as int);
                }
                let plen = parts[i].len();
                let clen = candidate.len();
                assert(found + plen <= clen);
                position = found + plen;
            },
        }
        i = i + 1;
    }
    assert(pv.subrange(0, parts.len() as int) =~= pv);
    assert(placed_from_start(c, pv, g, at_start));
    if !at_end {
        assert(anchored(c, pv, g, at_start, at_end));
        assert(anchored_for(pattern@, c, g));
        return true;
    }
    let last = &parts[parts.len() - 1];
    assert(last@ == pv.last());
    proof {
        lemma_end_anchor(pattern@, c, pv, g, at_start, at_end);
    }
    if last.len() > candidate.len() {
        return false;
    }
    occurs_at_vec(candidate, last, candidate.len() - last.len())
}

/// How tool calls that no rule covers are treated.
#[derive(Debug, Clone, Copy, PartialEq, Eq, Structural)]
pub enum PermissionMode {
    AllowAll,
    Ask,
    DenyAll,
}

impl Default for PermissionMode {
    fn default() -> (m: Self)
        ensures
            m == PermissionMode::AllowAll,
    {
        PermissionMode::AllowAll
    }
}

/// Permission settings: a default mode and three lists of tool-name rules.
#[derive(Debug)]
pub struct PermissionsSettings {
    pub mode: PermissionMode,
    pub allow_tools: Vec<String>,
    pub deny_tools: Vec<String>,
    pub ask_tools: Vec<String>,
}

/// The mathematical value of permission settings.
pub struct PermissionsView {
    pub mode: PermissionMode,
    pub allow: Seq<Seq<char>>,
    pub deny: Seq<Seq<char>>,
    pub ask: Seq<Seq<char>>,
}

impl View for PermissionsSettings {
    type V = PermissionsView;

    open spec fn view(&self) -> PermissionsView {
        PermissionsView {
            mode: self.mode,
            allow: views(self.allow_tools@),
            deny: views(self.deny_tools@),
            ask: views(self.ask_tools@),
        }
    }
}

/// A copy of a list of strings.
pub fn clone_strings(v: &Vec<String>) -> (r: Vec<String>)
    ensures
        views(r@) == views(v@),
{
    let r = v.clone();
    assert(views(r@) =~= views(v@)) by {
        assert forall|i: int| 0 <= i < v@.len() implies r@[i]@ == v@[i]@ by {
            assert(vstd::pervasive::cloned(v@[i], r@[i]));
        }
    }
    r
}

impl Clone for PermissionsSettings {
    fn clone(&self) -> (r: Self)
        ensures
            r@ == self@,
    {
        PermissionsSettings {
            mode: self.mode,
            allow_tools: clone_strings(&self.allow_tools),
            deny_tools: clone_strings(&self.deny_tools),
            ask_tools: clone_strings(&self.ask_tools),
        }
    }
}

impl Default for PermissionsSettings {
    fn default() -> (s: Self)
        ensures
            s@.mode == PermissionMode::AllowAll,
            s@.allow.len() == 0,
            s@.deny.len() == 0,
            s@.ask.len() == 0,
    {
        PermissionsSettings {
            mode: PermissionMode::AllowAll,
            allow_tools: Vec::new(),
            deny_tools: Vec::new(),
            ask_tools: Vec::new(),
        }
    }
}

/// The verdict on one tool call.
#[derive(Debug, Clone, PartialEq, Eq)]
pub enum PermissionDecision {
    Allow,
    Deny(String),
    Ask(String),
}

/// The mathematical value of a verdict.
pub enum DecisionView {
    Allow,
    Deny(Seq<char>),
    Ask(Seq<char>),
}

impl View for PermissionDecision {
    type V = DecisionView;

    open spec fn view(&self) -> DecisionView {
        match self {
            PermissionDecision::Allow => DecisionView::Allow,
            PermissionDecision::Deny(m) => DecisionView::Deny(m@),
            PermissionDecision::Ask(m) => DecisionView::Ask(m@),
        }
    }
}

/// Whether one rule covers `tool`: the trimmed rule is `*`, or, compared
/// without ASCII case, its wildcard pattern matches the tool name. A blank
/// rule covers nothing.
pub open spec fn rule_matches_spec(rule: Seq<char>, tool: Seq<char>) -> bool {
    let t = trim(rule);
    t.len() > 0 && (t == seq!['*'] || pattern_matches(lower(t), lower(tool)))
}

/// Whether some rule of `rules` covers `tool`.
pub open spec fn any_rule_matches(rules: Seq<Seq<char>>, tool: Seq<char>) -> bool {
    exists|i: int| 0 <= i < rules.len() && #[trigger] rule_matches_spec(rules[i], tool)
}

/// The verdict for a call of `tool` under `s`: a matching deny rule wins,
/// then a matching ask rule, then a matching allow rule; otherwise the mode
/// decides.
pub open spec fn decide(s: PermissionsView, tool: Seq<char>) -> DecisionView {
    if any_rule_matches(s.deny, tool) {
        DecisionView::Deny("Tool "@ + tool + " denied by permissions.deny_tools"@)
    } else if any_rule_matches(s.ask, tool) {
        DecisionView::Ask("Tool "@ + tool + " requires explicit approval"@)
    } else if any_rule_matches(s.allow, tool) {
        DecisionView::Allow
    } else {
        match s.mode {
            PermissionMode::AllowAll => DecisionView::Allow,
            PermissionMode::Ask => DecisionView::Ask("Tool "@ + tool + " requires approval"@),
            PermissionMode::DenyAll => DecisionView::Deny(
                "Tool "@ + tool + " denied by permissions.mode=deny_all"@,
            ),
        }
    }
}

/// `rules` without the entries equal to `tool` up to ASCII case.
pub open spec fn remove_rule_spec(rules: Seq<Seq<char>>, tool: Seq<char>) -> Seq<Seq<char>>
    decreases rules.len(),
{
    if rules.len() == 0 {
        rules
    } else {
        let r = remove_rule_spec(rules.drop_last(), tool);
        if eq_ignore_case(rules.last(), tool) {
            r
        } else {
            r.push(rules.last())
        }
    }
}

/// `rules` with `tool` appended unless some rule already covers it.
pub open spec fn push_unique_spec(rules: Seq<Seq<char>>, tool: Seq<char>) -> Seq<Seq<char>> {
    if any_rule_matches(rules, tool) {
        rules
    } else {
        rules.push(tool)
    }
}

/// The settings once `tool` is always allowed: it leaves the deny and ask
/// lists and joins the allow list unless an allow rule already covers it.
pub open spec fn after_allow(s: PermissionsView, tool: Seq<char>) -> PermissionsView {
    PermissionsView {
        mode: s.mode,
        allow: push_unique_spec(s.allow, tool),
        deny: remove_rule_spec(s.deny, tool),
        ask: remove_rule_spec(s.ask, tool),
    }
}

/// The settings once `tool` is always denied: it leaves the allow and ask
/// lists and joins the deny list unless a deny rule already covers it.
pub open spec fn after_deny(s: PermissionsView, tool: Seq<char>) -> PermissionsView {
    PermissionsView {
        mode: s.mode,
        allow: remove_rule_spec(s.allow, tool),
        deny: push_unique_spec(s.deny, tool),
        ask: remove_rule_spec(s.ask, tool),
    }
}

/// Where each piece of `star_parts(s)` starts in `s` itself.
pub open spec fn part_starts(s: Seq<char>) -> Seq<int>
    decreases s.len(),
{
    if s.len() == 0 {
        Seq::<int>::empty()
    } else {
        let r = part_starts(s.drop_last());
        if s.last() == '*' {
            r
        } else if s.len() >= 2 && s[s.len() - 2] != '*' {
            r
        } else {
            r.push(s.len() - 1)
        }
    }
}

/// The pieces of a pattern sit in the pattern itself, in order, the first
/// at the start unless the pattern starts with `*` and the last at the end
/// unless it ends with `*`.
proof fn lemma_self_placement(s: Seq<char>)
    ensures
        part_starts(s).len() == star_parts(s).len(),
        placed(s, star_parts(s), part_starts(s)),
        star_parts(s).len() > 0 && s[0] != '*' ==> part_starts(s)[0] == 0,
        star_parts(s).len() > 0 && s.last() != '*' ==> part_starts(s).last() + star_parts(s).last().len()
            == s.len(),
        star_parts(s).len() > 0 ==> part_starts(s).last() + star_parts(s).last().len() <= s.len(),
    decreases s.len(),
{
    if s.len() == 0 {
        return;
    }
    let t = s.drop_last();
    lemma_self_placement(t);
    let r = star_parts(t);
    let q = part_starts(t);
    assert forall|i: int| 0 <= i < r.len() implies occurs_at(s, #[trigger] r[i], q[i]) by {
        assert(occurs_at(t, r[i], q[i]));
        assert(s.subrange(q[i], q[i] + r[i].len()) =~= t.subrange(q[i], q[i] + r[i].len()));
    }
    if s.last() == '*' {
    } else if s.len() >= 2 && s[s.len() - 2] != '*' {
        assert(t.last() == s[s.len() - 2]);
        lemma_star_parts_nonempty(t);
        let p = star_parts(s);
        let k: int = r.len() - 1;
        assert(q[k] + r[k].len() == t.len());
        assert(s.subrange(q[k], q[k] + r[k].len() + 1) =~= t.subrange(q[k], q[k] + r[k].len()).push(
            s.last(),
        ));
        assert(occurs_at(s, p[k], q[k]));
        assert forall|i: int| 0 <= i < p.len() implies occurs_at(s, #[trigger] p[i], q[i]) by {
            if i < k {
                assert(p[i] == r[i]);
            }
        }
        assert forall|i: int| 0 <= i < q.len() - 1 implies #[trigger] q[i] + p[i].len() <= q[i + 1] by {
            assert(p[i] == r[i]);
        }
        if s[0] != '*' {
            assert(t[0] == s[0]);
        }
    } else {
        let p = star_parts(s);
        let q2 = part_starts(s);
        let k: int = r.len() as int;
        assert(p[k] == seq![s.last()]);
        assert(s.subrange(s.len() - 1, s.len() as int) =~= seq![s.last()]);
        assert forall|i: int| 0 <= i < p.len() implies occurs_at(s, #[trigger] p[i], q2[i]) by {
            if i < k {
                assert(p[i] == r[i] && q2[i] == q[i]);
            }
        }
        if k > 0 {
            assert(q[k - 1] + r[k - 1].len() <= t.len());
            if s.len() >= 2 {
                assert(t.last() == '*');
                if q[k - 1] + r[k - 1].len() == t.len() {
                    assert(r[k - 1].len() > 0) by {
                        lemma_parts_nonempty(t);
                    }
                    assert(t[t.len() - 1] == r[k - 1][r[k - 1].len() - 1]);
                    lemma_parts_starless(t);
                    assert(false);
                }
            }
        }
        assert forall|i: int| 0 <= i < q2.len() - 1 implies #[trigger] q2[i] + p[i].len() <= q2[i + 1] by {
            assert(p[i] == r[i] && q2[i] == q[i]);
        }
        if s[0] != '*' && k > 0 {
            assert(t[0] == s[0]);
        }
        if s[0] != '*' && k == 0 && s.len() >= 2 {
            assert(t[0] == s[0]);
            lemma_star_parts_nonempty(t);
        }
    }
}

/// No piece of a pattern is empty.
proof fn lemma_parts_nonempty(s: Seq<char>)
    ensures
        forall|i: int| 0 <= i < star_parts(s).len() ==> #[trigger] star_parts(s)[i].len() > 0,
    decreases s.len(),
{
    if s.len() > 0 {
        let t = s.drop_last();
        lemma_parts_nonempty(t);
        let r = star_parts(t);
        if s.last() != '*' {
            if s.len() >= 2 && s[s.len() - 2] != '*' {
                assert(t.last() == s[s.len() - 2]);
                lemma_star_parts_nonempty(t);
                assert forall|i: int| 0 <= i < star_parts(s).len() implies #[trigger] star_parts(s)[i].len() > 0 by {
                    if i < r.len() - 1 {
                        assert(star_parts(s)[i] == r[i]);
                    }
                }
            } else {
                assert forall|i: int| 0 <= i < star_parts(s).len() implies #[trigger] star_parts(s)[i].len() > 0 by {
                    if i < r.len() {
                        assert(star_parts(s)[i] == r[i]);
                    }
                }
            }
        }
    }
}

/// No piece of a pattern holds `*`.
proof fn lemma_parts_starless(s: Seq<char>)
    ensures
        forall|i: int, j: int|
            0 <= i < star_parts(s).len() && 0 <= j < star_parts(s)[i].len() ==> #[trigger] star_parts(s)[i][j]
                != '*',
    decreases s.len(),
{
    if s.len() > 0 {
        let t = s.drop_last();
        lemma_parts_starless(t);
        let r = star_parts(t);
        if s.last() != '*' {
            if s.len() >= 2 && s[s.len() - 2] != '*' {
                assert(t.last() == s[s.len() - 2]);
                lemma_star_parts_nonempty(t);
                assert forall|i: int, j: int|
                    0 <= i < star_parts(s).len() && 0 <= j < star_parts(s)[i].len() implies #[trigger] star_parts(
                    s,
                )[i][j] != '*' by {
                    if i < r.len() - 1 {
                        assert(star_parts(s)[i] == r[i]);
                    } else {
                        assert(star_parts(s)[i] == r[i].push(s.last()));
                        if j < r[i].len() {
                            assert(star_parts(s)[i][j] == r[i][j]);
                        }
                    }
                }
            } else {
                assert forall|i: int, j: int|
                    0 <= i < star_parts(s).len() && 0 <= j < star_parts(s)[i].len() implies #[trigger] star_parts(
                    s,
                )[i][j] != '*' by {
                    if i < r.len() {
                        assert(star_parts(s)[i] == r[i]);
                    }
                }
            }
        }
    }
}

/// Every text matches itself as a pattern: `*` in it stands for itself.
pub proof fn lemma_pattern_matches_itself(s: Seq<char>)
    ensures
        pattern_matches(s, s),
{
    if has_char(s, '*') && star_parts(s).len() > 0 {
        lemma_self_placement(s);
        let q = part_starts(s);
        assert(anchored_for(s, s, q));
    }
}

/// A rule written as a trimmed, non-empty tool name covers that name, `*`
/// or not.
pub proof fn lemma_name_matches_itself(t: Seq<char>)
    requires
        trim(t) == t,
        t.len() > 0,
    ensures
        rule_matches_spec(t, t),
{
    lemma_pattern_matches_itself(lower(t));
}


pub(crate) proof fn lemma_remove_members(rules: Seq<Seq<char>>, t: Seq<char>)
    ensures
        forall|j: int|
            0 <= j < remove_rule_spec(rules, t).len() ==> rules.contains(
                #[trigger] remove_rule_spec(rules, t)[j],
            ) && !eq_ignore_case(remove_rule_spec(rules, t)[j], t),
    decreases rules.len(),
{
    if rules.len() > 0 {
        lemma_remove_members(rules.drop_last(), t);
        let r = remove_rule_spec(rules.drop_last(), t);
        assert forall|j: int| 0 <= j < remove_rule_spec(rules, t).len() implies rules.contains(
            #[trigger] remove_rule_spec(rules, t)[j],
        ) && !eq_ignore_case(remove_rule_spec(rules, t)[j], t) by {
            if j < r.len() {
                assert(remove_rule_spec(rules, t)[j] == r[j]);
                let k = choose|k: int| 0 <= k < rules.drop_last().len() && rules.drop_last()[k]
                    == r[j];
                assert(rules[k] == r[j]);
            } else {
                assert(rules[rules.len() - 1] == rules.last());
            }
        }
    }
}

proof fn lemma_remove_idempotent(rules: Seq<Seq<char>>, t: Seq<char>)
    ensures
        remove_rule_spec(remove_rule_spec(rules, t), t) == remove_rule_spec(rules, t),
    decreases rules.len(),
{
    if rules.len() > 0 {
        lemma_remove_idempotent(rules.drop_last(), t);
        let r = remove_rule_spec(rules.drop_last(), t);
        if !eq_ignore_case(rules.last(), t) {
            assert(r.push(rules.last()).drop_last() =~= r);
        }
    }
}

proof fn lemma_no_cover_after_remove(rules: Seq<Seq<char>>, t: Seq<char>)
    requires
        forall|i: int|
            0 <= i < rules.len() && #[trigger] rule_matches_spec(rules[i], t) ==> eq_ignore_case(
                rules[i],
                t,
            ),
    ensures
        !any_rule_matches(remove_rule_spec(rules, t), t),
{
    lemma_remove_members(rules, t);
    let r = remove_rule_spec(rules, t);
    if any_rule_matches(r, t) {
        let j = choose|j: int| 0 <= j < r.len() && #[trigger] rule_matches_spec(r[j], t);
        assert(rules.contains(r[j]));
        let i = choose|i: int| 0 <= i < rules.len() && rules[i] == r[j];
        assert(rule_matches_spec(rules[i], t));
    }
}

/// Denying a trimmed, non-empty tool name makes every later call of it
/// denied.
pub proof fn law_deny_rule_denies(s: PermissionsView, t: Seq<char>)
    requires
        trim(t) == t,
        t.len() > 0,
    ensures
        decide(after_deny(s, t), t) is Deny,
{
    lemma_name_matches_itself(t);
    let d = after_deny(s, t).deny;
    if !any_rule_matches(s.deny, t) {
        assert(d.last() == t);
        assert(rule_matches_spec(d[d.len() - 1], t));
    }
}

/// Allowing a trimmed, non-empty tool name (`*` in it included) makes
/// later calls of it allowed, as long as no deny or ask rule other than the
/// tool's own name covers it.
pub proof fn law_allow_rule_allows(s: PermissionsView, t: Seq<char>)
    requires
        trim(t) == t,
        t.len() > 0,
        forall|i: int|
            0 <= i < s.deny.len() && #[trigger] rule_matches_spec(s.deny[i], t) ==> eq_ignore_case(
                s.deny[i],
                t,
            ),
        forall|i: int|
            0 <= i < s.ask.len() && #[trigger] rule_matches_spec(s.ask[i], t) ==> eq_ignore_case(
                s.ask[i],
                t,
            ),
    ensures
        decide(after_allow(s, t), t) == DecisionView::Allow,
{
    lemma_name_matches_itself(t);
    lemma_no_cover_after_remove(s.deny, t);
    lemma_no_cover_after_remove(s.ask, t);
    let a = after_allow(s, t).allow;
    if !any_rule_matches(s.allow, t) {
        assert(a.last() == t);
        assert(rule_matches_spec(a[a.len() - 1], t));
    }
}

/// Allowing a tool name removes it from the deny and ask lists; denying it
/// removes it from the allow and ask lists.
pub proof fn law_allow_and_deny_exclusive(s: PermissionsView, t: Seq<char>)
    ensures
        forall|i: int|
            0 <= i < after_allow(s, t).deny.len() ==> !eq_ignore_case(
                #[trigger] after_allow(s, t).deny[i],
                t,
            ),
        forall|i: int|
            0 <= i < after_allow(s, t).ask.len() ==> !eq_ignore_case(
                #[trigger] after_allow(s, t).ask[i],
                t,
            ),
        forall|i: int|
            0 <= i < after_deny(s, t).allow.len() ==> !eq_ignore_case(
                #[trigger] after_deny(s, t).allow[i],
                t,
            ),
        forall|i: int|
            0 <= i < after_deny(s, t).ask.len() ==> !eq_ignore_case(
                #[trigger] after_deny(s, t).ask[i],
                t,
            ),
{
    lemma_remove_members(s.deny, t);
    lemma_remove_members(s.ask, t);
    lemma_remove_members(s.allow, t);
}

/// Allowing (or denying) the same trimmed, non-empty tool name twice
/// changes nothing more than doing it once.
pub proof fn law_add_rule_idempotent(s: PermissionsView, t: Seq<char>)
    requires
        trim(t) == t,
        t.len() > 0,
    ensures
        after_allow(after_allow(s, t), t) == after_allow(s, t),
        after_deny(after_deny(s, t), t) == after_deny(s, t),
{
    lemma_name_matches_itself(t);
    lemma_remove_idempotent(s.deny, t);
    lemma_remove_idempotent(s.ask, t);
    lemma_remove_idempotent(s.allow, t);
    let a = push_unique_spec(s.allow, t);
    if !any_rule_matches(s.allow, t) {
        assert(rule_matches_spec(a[a.len() - 1], t));
    }
    let d = push_unique_spec(s.deny, t);
    if !any_rule_matches(s.deny, t) {
        assert(rule_matches_spec(d[d.len() - 1], t));
    }
}

/// A deny rule that covers a tool overrides every ask and allow rule and the
/// mode.
pub proof fn law_deny_has_priority(s: PermissionsView, t: Seq<char>)
    requires
        any_rule_matches(s.deny, t),
    ensures
        decide(s, t) == DecisionView::Deny("Tool "@ + t + " denied by permissions.deny_tools"@),
{
}

/// An ask rule that covers a tool overrides every allow rule and the mode,
/// unless a deny rule covers it too.
pub proof fn law_ask_has_priority_over_allow(s: PermissionsView, t: Seq<char>)
    requires
        !any_rule_matches(s.deny, t),
        any_rule_matches(s.ask, t),
    ensures
        decide(s, t) == DecisionView::Ask("Tool "@ + t + " requires explicit approval"@),
{
}

/// A permission gate decides on each tool call.
pub trait PermissionGate {
    fn evaluate_tool_call(&self, call: &RuntimeToolCall) -> PermissionDecision;
}

/// Decides tool calls by a [`PermissionsSettings`].
#[derive(Debug)]
pub struct SettingsPermissionGate {
    settings: PermissionsSettings,
}

/// Whether one rule covers `tool`.
pub fn rule_matches(rule: &str, tool_name: &str) -> (r: bool)
    ensures
        r == rule_matches_spec(rule@, tool_name@),
{
    let rv = chars_of(rule);
    let (a, b) = trim_bounds(&rv);
    if a == b {
        return false;
    }
    if b - a == 1 && rv[a] == '*' {
        assert(trim(rule@) =~= seq!['*']);
        return true;
    }
    let mut t: Vec<char> = Vec::new();
    let mut k: usize = a;
    while k < b
        invariant
            a <= k <= b <= rv.len(),
            t@ == rv@.subrange(a as int, k as int),
        decreases b - k,
    {
        t.push(rv[k]);
        k = k + 1;
    }
    let lt = lower_vec(&t);
    let tv = chars_of(tool_name);
    let ltool = lower_vec(&tv);
    let m = wildcard_match_chars(&lt, &ltool);
    proof {
        if trim(rule@) == seq!['*'] {
            assert(trim(rule@).len() == 1);
            assert(trim(rule@)[0] == rv@[a as int]);
        }
    }
    m
}

/// Whether some rule of `rules` covers `tool_name`.
pub fn matches_rule(rules: &Vec<String>, tool_name: &str) -> (r: bool)
    ensures
        r == any_rule_matches(views(rules@), tool_name@),
{
    let mut i: usize = 0;
    while i < rules.len()
        invariant
            i <= rules.len(),
            forall|j: int| 0 <= j < i ==> !rule_matches_spec(#[trigger] views(rules@)[j], tool_name@),
        decreases rules.len() - i,
    {
        if rule_matches(rules[i].as_str(), tool_name) {
            assert(rule_matches_spec(views(rules@)[i as int], tool_name@));
            return true;
        }
        i = i + 1;
    }
    false
}

/// Drops from `rules` every entry equal to `tool_name` up to ASCII case.
pub fn remove_rule(rules: &mut Vec<String>, tool_name: &str)
    ensures
        views(final(rules)@) == remove_rule_spec(views(old(rules)@), tool_name@),
{
    let ghost orig = views(rules@);
    let mut kept: Vec<String> = Vec::new();
    let mut i: usize = 0;
    while i < rules.len()
        invariant
            i <= rules.len(),
            views(rules@) == orig,
            views(kept@) == remove_rule_spec(orig.subrange(0, i as int), tool_name@),
        decreases rules.len() - i,
    {
        let ghost prefix = orig.subrange(0, i + 1);
        assert(prefix.drop_last() =~= orig.subrange(0, i as int));
        assert(prefix.last() == rules@[i as int]@);
        if !eq_ignore_case_str(rules[i].as_str(), tool_name) {
            let ghost old_kept = views(kept@);
            let c = rules[i].clone();
            kept.push(c);
            assert(views(kept@) =~= old_kept.push(c@));
        }
        i = i + 1;
    }
    assert(orig.subrange(0, rules.len() as int) =~= orig);
    *rules = kept;
}

/// Appends `tool_name` to `rules` unless some rule already covers it.
pub fn push_unique_rule(rules: &mut Vec<String>, tool_name: &str)
    ensures
        views(final(rules)@) == push_unique_spec(views(old(rules)@), tool_name@),
{
    if !matches_rule(rules, tool_name) {
        let ghost old_views = views(rules@);
        let t = String::from_str(tool_name);
        rules.push(t);
        assert(views(rules@) =~= old_views.push(tool_name@));
    }
}

impl SettingsPermissionGate {
    /// A gate over the given settings.
    pub fn new(settings: PermissionsSettings) -> (g: Self)
        ensures
            g.settings_view() == settings@,
    {
        SettingsPermissionGate { settings }
    }

    /// The permission settings in force.
    pub closed spec fn settings_view(&self) -> PermissionsView {
        self.settings@
    }

    /// The current settings.
    pub fn settings(&self) -> (s: &PermissionsSettings)
        ensures
            s@ == self.settings_view(),
    {
        &self.settings
    }

    /// Always allows `tool_name`: it leaves the deny and ask lists and joins
    /// the allow list (unless an allow rule already covers it).
    pub fn add_allow_rule(&mut self, tool_name: &str)
        ensures
            final(self).settings_view() == after_allow(old(self).settings_view(), tool_name@),
    {
        remove_rule(&mut self.settings.deny_tools, tool_name);
        remove_rule(&mut self.settings.ask_tools, tool_name);
        push_unique_rule(&mut self.settings.allow_tools, tool_name);
    }

    /// Always denies `tool_name`: it leaves the allow and ask lists and joins
    /// the deny list (unless a deny rule already covers it).
    pub fn add_deny_rule(&mut self, tool_name: &str)
        ensures
            final(self).settings_view() == after_deny(old(self).settings_view(), tool_name@),
    {
        remove_rule(&mut self.settings.allow_tools, tool_name);
        remove_rule(&mut self.settings.ask_tools, tool_name);
        push_unique_rule(&mut self.settings.deny_tools, tool_name);
    }

    /// The error result handed back to the model for a refused call.
    pub fn denied_tool_result(call: &RuntimeToolCall, content: String) -> (r: RuntimeToolResult)
        ensures
            r.tool_call_id@ == call.id@,
            r.name@ == call.name@,
            r.content@ == content@,
            r.is_error,
    {
        RuntimeToolResult {
            tool_call_id: call.id.clone(),
            name: call.name.clone(),
            content,
            is_error: true,
        }
    }

    /// The verdict for a call of the named tool.
    pub fn evaluate(&self, tool_name: &str) -> (d: PermissionDecision)
        ensures
            d@ == decide(self.settings_view(), tool_name@),
    {
        if matches_rule(&self.settings.deny_tools, tool_name) {
            let m = concat(concat("Tool ", tool_name).as_str(), " denied by permissions.deny_tools");
            return PermissionDecision::Deny(m);
        }
        if matches_rule(&self.settings.ask_tools, tool_name) {
            let m = concat(concat("Tool ", tool_name).as_str(), " requires explicit approval");
            return PermissionDecision::Ask(m);
        }
        if matches_rule(&self.settings.allow_tools, tool_name) {
            return PermissionDecision::Allow;
        }
        match self.settings.mode {
            PermissionMode::AllowAll => PermissionDecision::Allow,
            PermissionMode::Ask => {
                let m = concat(concat("Tool ", tool_name).as_str(), " requires approval");
                PermissionDecision::Ask(m)
            },
            PermissionMode::DenyAll => {
                let m = concat(
                    concat("Tool ", tool_name).as_str(),
                    " denied by permissions.mode=deny_all",
                );
                PermissionDecision::Deny(m)
            },
        }
    }
}

impl PermissionGate for SettingsPermissionGate {
    fn evaluate_tool_call(&self, call: &RuntimeToolCall) -> (d: PermissionDecision)
        ensures
            d@ == decide(self.settings_view(), call.name@),
    {
        self.evaluate(call.name.as_str())
    }
}

/// A recorded permission verdict.
#[derive(Debug, Clone, PartialEq, Eq)]
pub struct PermissionEvent {
    pub tool_name: String,
    pub decision: String,
    pub reason: String,
    pub timestamp: i64,
}

/// The project's log of permission verdicts, kept to its latest
/// `MAX_PERMISSION_EVENTS` entries.
pub struct PermissionEventStore;

/// How many verdicts the log keeps.
pub const MAX_PERMISSION_EVENTS: usize = 50;

/// The log after `event` is added: the latest `MAX_PERMISSION_EVENTS`
/// entries of the old log followed by the event.
pub open spec fn appended_log(events: Seq<PermissionEvent>, event: PermissionEvent) -> Seq<PermissionEvent> {
    let all = events.push(event);
    if all.len() > MAX_PERMISSION_EVENTS {
        all.subrange(all.len() - MAX_PERMISSION_EVENTS, all.len() as int)
    } else {
        all
    }
}

impl PermissionEventStore {
    /// Where the log of the project at `cwd` (else the working directory
    /// `current_dir`) is kept.
    pub fn path(cwd: Option<&str>, current_dir: Option<&str>) -> (r: Option<String>)
        ensures
            crate::text::opt_view(r) == crate::paths::opt_join(
                crate::paths::state_dir_spec(crate::paths::str_view(cwd), crate::paths::str_view(current_dir)),
                "permission-events.json"@,
            ),
    {
        crate::paths::project_permission_events_path(cwd, current_dir)
    }

    /// The log with `event` added, keeping the latest entries.
    pub fn append(events: Vec<PermissionEvent>, event: PermissionEvent) -> (r: Vec<PermissionEvent>)
        ensures
            r@ == appended_log(events@, event),
            r@.len() <= MAX_PERMISSION_EVENTS,
    {
        let mut all = events;
        let ghost whole = all@.push(event);
        all.push(event);
        if all.len() > MAX_PERMISSION_EVENTS {
            let drop = all.len() - MAX_PERMISSION_EVENTS;
            let mut kept: Vec<PermissionEvent> = Vec::new();
            let mut rest = all;
            let mut i: usize = 0;
            while i < drop
                invariant
                    i <= drop,
                    drop == whole.len() - MAX_PERMISSION_EVENTS,
                    rest@ == whole.subrange(i as int, whole.len() as int),
                decreases drop - i,
            {
                rest.remove(0);
                i = i + 1;
            }
            kept.append(&mut rest);
            assert(kept@ =~= whole.subrange(drop as int, whole.len() as int));
            kept
        } else {
            all
        }
    }
}

} // verus!
