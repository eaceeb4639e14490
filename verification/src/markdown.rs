//! Markdown files with a `---` frontmatter block: splitting them, reading
//! `key: value` entries, and turning them into slash commands and skills.

use vstd::prelude::*;
use crate::api_config::first_index;
use crate::commands::{KindView, SlashCommandKind, SlashCommandSource, SlashCommandSpec, SpecView};
use crate::text::{
    chars_of, concat, has_prefix, join, join_strs, lines, lines_str, opt_view, string_of_range,
    trim, trim_bounds, trim_start, trim_str, views,
};

verus! {

/// Whether a line closes the frontmatter block.
pub open spec fn is_fence(line: Seq<char>) -> bool {
    trim(line) == "---"@
}

/// The index of the first fence line.
pub open spec fn first_fence(ls: Seq<Seq<char>>) -> Option<int>
    decreases ls.len(),
{
    if ls.len() == 0 {
        None
    } else if is_fence(ls[0]) {
        Some(0)
    } else {
        match first_fence(ls.drop_first()) {
            Some(i) => Some(i + 1),
            None => None,
        }
    }
}

proof fn lemma_first_fence_at(ls: Seq<Seq<char>>, i: int)
    requires
        0 <= i < ls.len(),
        is_fence(ls[i]),
        forall|j: int| 0 <= j < i ==> !is_fence(#[trigger] ls[j]),
    ensures
        first_fence(ls) == Some(i),
    decreases i,
{
    if i > 0 {
        let rest = ls.drop_first();
        assert forall|j: int| 0 <= j < i - 1 implies !is_fence(#[trigger] rest[j]) by {
            assert(rest[j] == ls[j + 1]);
        }
        lemma_first_fence_at(rest, i - 1);
    }
}

proof fn lemma_first_fence_none(ls: Seq<Seq<char>>)
    requires
        forall|j: int| 0 <= j < ls.len() ==> !is_fence(#[trigger] ls[j]),
    ensures
        first_fence(ls) is None,
    decreases ls.len(),
{
    if ls.len() > 0 {
        let rest = ls.drop_first();
        assert forall|j: int| 0 <= j < rest.len() implies !is_fence(#[trigger] rest[j]) by {
            assert(rest[j] == ls[j + 1]);
        }
        lemma_first_fence_none(rest);
    }
}

/// The frontmatter and the body of a markdown text. Text that does not
/// start with `---` (after leading whitespace) has no frontmatter and is all
/// body. Otherwise the lines after the opening `---` up to the first line
/// that is `---` once trimmed are the frontmatter, the lines after it the
/// body; each part is its lines joined with `\n`.
pub open spec fn frontmatter_spec(raw: Seq<char>) -> (Seq<char>, Seq<char>) {
    let t = trim_start(raw);
    if !has_prefix(t, "---"@) {
        (Seq::empty(), raw)
    } else {
        let all = lines(t);
        let ls = if all.len() == 0 {
            all
        } else {
            all.drop_first()
        };
        match first_fence(ls) {
            Some(k) => (join(ls.subrange(0, k), "\n"@), join(ls.skip(k + 1), "\n"@)),
            None => (join(ls, "\n"@), Seq::empty()),
        }
    }
}

/// Splits a markdown text into its frontmatter and its body.
pub fn split_frontmatter(raw: &str) -> (r: (String, String))
    ensures
        (r.0@, r.1@) == frontmatter_spec(raw@),
{
    let v = chars_of(raw);
    let (a, _b) = trim_bounds(&v);
    let t = string_of_range(&v, a, v.len());
    let tv = chars_of(t.as_str());
    proof {
        reveal_strlit("---");
    }
    let fenced = tv.len() >= 3 && tv[0] == '-' && tv[1] == '-' && tv[2] == '-';
    if !fenced {
        proof {
            if has_prefix(t@, "---"@) {
                assert(t@[0] == "---"@[0] && t@[1] == "---"@[1] && t@[2] == "---"@[2]);
            }
        }
        return (String::new(), String::from_str(raw));
    }
    assert(t@.subrange(0, 3) =~= "---"@);
    let all = lines_str(t.as_str());
    if all.len() == 0 {
        return (String::new(), String::new());
    }
    let ghost ls = views(all@).drop_first();
    let mut front: Vec<String> = Vec::new();
    let mut body: Vec<String> = Vec::new();
    let mut in_front = true;
    let mut i: usize = 1;
    while i < all.len()
        invariant
            1 <= i <= all.len(),
            all.len() >= 1,
            ls == views(all@).drop_first(),
            in_front ==> views(front@) == ls.subrange(0, i - 1) && body@.len() == 0 && forall|j: int|
                0 <= j < i - 1 ==> !is_fence(#[trigger] ls[j]),
            !in_front ==> exists|k: int|
                0 <= k < i - 1 && first_fence(ls) == Some(k) && views(front@) == ls.subrange(0, k)
                    && views(body@) == ls.subrange(k + 1, i - 1),
        decreases all.len() - i,
    {
        let ghost fv = views(front@);
        let ghost bv = views(body@);
        assert(ls[i - 1] == all@[i as int]@);
        let line = all[i].as_str();
        let trimmed = trim_str(line);
        if in_front && crate::text::str_eq(trimmed.as_str(), "---") {
            in_front = false;
            proof {
                lemma_first_fence_at(ls, i - 1);
                assert(ls.subrange((i - 1) + 1, i as int) =~= Seq::<Seq<char>>::empty());
                assert(views(body@) =~= Seq::<Seq<char>>::empty());
            }
        } else if in_front {
            front.push(String::from_str(line));
            assert(views(front@) =~= fv.push(ls[i - 1]));
            assert(views(front@) =~= ls.subrange(0, i as int));
        } else {
            body.push(String::from_str(line));
            assert(views(body@) =~= bv.push(ls[i - 1]));
            let ghost k = choose|k: int|
                0 <= k < i - 1 && first_fence(ls) == Some(k) && fv == ls.subrange(0, k) && bv
                    == ls.subrange(k + 1, i - 1);
            assert(views(body@) =~= ls.subrange(k + 1, i as int));
        }
        i = i + 1;
    }
    let f = join_strs(&front, "\n");
    let b = join_strs(&body, "\n");
    proof {
        if in_front {
            lemma_first_fence_none(ls);
            assert(ls.subrange(0, ls.len() as int) =~= ls);
            assert(views(body@) =~= Seq::<Seq<char>>::empty());
        } else {
            let k = choose|k: int|
                0 <= k < all.len() - 1 && first_fence(ls) == Some(k) && views(front@) == ls.subrange(
                    0,
                    k,
                ) && views(body@) == ls.subrange(k + 1, all.len() - 1);
            assert(ls.subrange(k + 1, ls.len() as int) =~= ls.skip(k + 1));
        }
    }
    (f, b)
}

/// `s` without its leading `c` characters.
pub open spec fn strip_lead(s: Seq<char>, c: char) -> Seq<char>
    decreases s.len(),
{
    if s.len() > 0 && s[0] == c {
        strip_lead(s.drop_first(), c)
    } else {
        s
    }
}

/// `s` without its trailing `c` characters.
pub open spec fn strip_trail(s: Seq<char>, c: char) -> Seq<char>
    decreases s.len(),
{
    if s.len() > 0 && s.last() == c {
        strip_trail(s.drop_last(), c)
    } else {
        s
    }
}

/// `s` without leading and trailing `c` characters (`str::trim_matches`).
pub open spec fn trim_char(s: Seq<char>, c: char) -> Seq<char> {
    strip_trail(strip_lead(s, c), c)
}

proof fn lemma_strip_lead_skip(s: Seq<char>, c: char, i: int)
    requires
        0 <= i <= s.len(),
        forall|j: int| 0 <= j < i ==> #[trigger] s[j] == c,
    ensures
        strip_lead(s, c) == strip_lead(s.subrange(i, s.len() as int), c),
    decreases i,
{
    if i > 0 {
        assert(s.drop_first().subrange(i - 1, s.drop_first().len() as int) =~= s.subrange(
            i,
            s.len() as int,
        ));
        lemma_strip_lead_skip(s.drop_first(), c, i - 1);
    } else {
        assert(s.subrange(0, s.len() as int) =~= s);
    }
}

proof fn lemma_strip_trail_skip(s: Seq<char>, c: char, k: int)
    requires
        0 <= k <= s.len(),
        forall|j: int| k <= j < s.len() ==> #[trigger] s[j] == c,
    ensures
        strip_trail(s, c) == strip_trail(s.subrange(0, k), c),
    decreases s.len() - k,
{
    if k < s.len() {
        assert(s.drop_last().subrange(0, k) =~= s.subrange(0, k));
        lemma_strip_trail_skip(s.drop_last(), c, k);
    } else {
        assert(s.subrange(0, k) =~= s);
    }
}

/// `s` without leading and trailing `c` characters.
pub fn trim_char_str(s: &str, c: char) -> (r: String)
    ensures
        r@ == trim_char(s@, c),
{
    let v = chars_of(s);
    let n = v.len();
    let mut i: usize = 0;
    while i < n && v[i] == c
        invariant
            i <= n == v.len(),
            forall|j: int| 0 <= j < i ==> #[trigger] v@[j] == c,
        decreases n - i,
    {
        i = i + 1;
    }
    let ghost t = v@.subrange(i as int, n as int);
    proof {
        lemma_strip_lead_skip(v@, c, i as int);
        assert(t.len() == 0 || t[0] != c);
    }
    let mut k: usize = n;
    while k > i && v[k - 1] == c
        invariant
            i <= k <= n == v.len(),
            t == v@.subrange(i as int, n as int),
            forall|j: int| k <= j < n ==> #[trigger] v@[j] == c,
        decreases k,
    {
        k = k - 1;
    }
    proof {
        assert forall|j: int| (k - i) <= j < t.len() implies #[trigger] t[j] == c by {
            assert(t[j] == v@[j + i]);
        }
        lemma_strip_trail_skip(t, c, k - i);
        let u = t.subrange(0, k - i);
        assert(u =~= v@.subrange(i as int, k as int));
        assert(u.len() == 0 || u.last() != c);
    }
    string_of_range(&v, i, k)
}

/// `s` without trailing `c` characters (`str::trim_end_matches`).
pub fn strip_trail_str(s: &str, c: char) -> (r: String)
    ensures
        r@ == strip_trail(s@, c),
{
    let v = chars_of(s);
    let n = v.len();
    let mut k: usize = n;
    while k > 0 && v[k - 1] == c
        invariant
            k <= n == v.len(),
            forall|j: int| k <= j < n ==> #[trigger] v@[j] == c,
        decreases k,
    {
        k = k - 1;
    }
    proof {
        lemma_strip_trail_skip(v@, c, k as int);
        let u = v@.subrange(0, k as int);
        assert(u.len() == 0 || u.last() != c);
    }
    string_of_range(&v, 0, k)
}

/// The value a frontmatter line gives for `key`: the line must hold a `:`,
/// the text before the first one must be `key` once trimmed, and the value
/// is the text after it, trimmed and stripped of surrounding `"`.
pub open spec fn entry_value(line: Seq<char>, key: Seq<char>) -> Option<Seq<char>> {
    match first_index(line, ':') {
        Some(i) => if trim(line.subrange(0, i)) == key {
            Some(trim_char(trim(line.skip(i + 1)), '"'))
        } else {
            None
        },
        None => None,
    }
}

/// The value of the first line of `ls` that gives one for `key`.
pub open spec fn lookup(ls: Seq<Seq<char>>, key: Seq<char>) -> Option<Seq<char>>
    decreases ls.len(),
{
    if ls.len() == 0 {
        None
    } else {
        match entry_value(ls[0], key) {
            Some(v) => Some(v),
            None => lookup(ls.drop_first(), key),
        }
    }
}

proof fn lemma_lookup_at(ls: Seq<Seq<char>>, key: Seq<char>, i: int)
    requires
        0 <= i < ls.len(),
        entry_value(ls[i], key) is Some,
        forall|j: int| 0 <= j < i ==> (#[trigger] entry_value(ls[j], key)) is None,
    ensures
        lookup(ls, key) == entry_value(ls[i], key),
    decreases i,
{
    if i > 0 {
        let rest = ls.drop_first();
        assert forall|j: int| 0 <= j < i - 1 implies (#[trigger] entry_value(rest[j], key)) is None by {
            assert(rest[j] == ls[j + 1]);
        }
        lemma_lookup_at(rest, key, i - 1);
    }
}

proof fn lemma_lookup_none(ls: Seq<Seq<char>>, key: Seq<char>)
    requires
        forall|j: int| 0 <= j < ls.len() ==> (#[trigger] entry_value(ls[j], key)) is None,
    ensures
        lookup(ls, key) is None,
    decreases ls.len(),
{
    if ls.len() > 0 {
        let rest = ls.drop_first();
        assert forall|j: int| 0 <= j < rest.len() implies (#[trigger] entry_value(rest[j], key)) is None by {
            assert(rest[j] == ls[j + 1]);
        }
        lemma_lookup_none(rest, key);
    }
}

fn entry_value_exec(line: &str, key: &str) -> (r: Option<String>)
    ensures
        opt_view(r) == entry_value(line@, key@),
{
    let v = chars_of(line);
    match crate::api_config::first_index_exec(&v, ':') {
        None => None,
        Some(i) => {
            let head = string_of_range(&v, 0, i);
            let k = trim_str(head.as_str());
            if crate::text::str_eq(k.as_str(), key) {
                let tail = string_of_range(&v, i + 1, v.len());
                assert(tail@ =~= line@.skip(i + 1));
                let t = trim_str(tail.as_str());
                Some(trim_char_str(t.as_str(), '"'))
            } else {
                None
            }
        },
    }
}

/// The value of `key` in a frontmatter block: the first line `key: value`.
pub fn frontmatter_value(frontmatter: &str, key: &str) -> (r: Option<String>)
    ensures
        opt_view(r) == lookup(lines(frontmatter@), key@),
{
    let ls = lines_str(frontmatter);
    let ghost lv = views(ls@);
    let mut i: usize = 0;
    while i < ls.len()
        invariant
            i <= ls.len(),
            lv == views(ls@),
            lv == lines(frontmatter@),
            forall|j: int| 0 <= j < i ==> (#[trigger] entry_value(lv[j], key@)) is None,
        decreases ls.len() - i,
    {
        assert(lv[i as int] == ls@[i as int]@);
        let r = entry_value_exec(ls[i].as_str(), key);
        if r.is_some() {
            proof {
                lemma_lookup_at(lv, key@, i as int);
            }
            return r;
        }
        i = i + 1;
    }
    proof {
        lemma_lookup_none(lv, key@);
    }
    None
}

/// Whether a trimmed line carries content: it is not empty and is not a
/// heading.
pub open spec fn is_content(l: Seq<char>) -> bool {
    l.len() > 0 && l[0] != '#'
}

/// The first content line of `ls`, trimmed.
pub open spec fn first_content(ls: Seq<Seq<char>>) -> Option<Seq<char>>
    decreases ls.len(),
{
    if ls.len() == 0 {
        None
    } else if is_content(trim(ls[0])) {
        Some(trim(ls[0]))
    } else {
        first_content(ls.drop_first())
    }
}

proof fn lemma_first_content_at(ls: Seq<Seq<char>>, i: int)
    requires
        0 <= i < ls.len(),
        is_content(trim(ls[i])),
        forall|j: int| 0 <= j < i ==> !is_content(trim(#[trigger] ls[j])),
    ensures
        first_content(ls) == Some(trim(ls[i])),
    decreases i,
{
    if i > 0 {
        let rest = ls.drop_first();
        assert forall|j: int| 0 <= j < i - 1 implies !is_content(trim(#[trigger] rest[j])) by {
            assert(rest[j] == ls[j + 1]);
        }
        lemma_first_content_at(rest, i - 1);
    }
}

proof fn lemma_first_content_none(ls: Seq<Seq<char>>)
    requires
        forall|j: int| 0 <= j < ls.len() ==> !is_content(trim(#[trigger] ls[j])),
    ensures
        first_content(ls) is None,
    decreases ls.len(),
{
    if ls.len() > 0 {
        let rest = ls.drop_first();
        assert forall|j: int| 0 <= j < rest.len() implies !is_content(trim(#[trigger] rest[j])) by {
            assert(rest[j] == ls[j + 1]);
        }
        lemma_first_content_none(rest);
    }
}

/// The first line of `body` that, trimmed, is neither empty nor a heading.
pub fn first_non_empty_line(body: &str) -> (r: Option<String>)
    ensures
        opt_view(r) == first_content(lines(body@)),
{
    let ls = lines_str(body);
    let ghost lv = views(ls@);
    let mut i: usize = 0;
    while i < ls.len()
        invariant
            i <= ls.len(),
            lv == views(ls@),
            lv == lines(body@),
            forall|j: int| 0 <= j < i ==> !is_content(trim(#[trigger] lv[j])),
        decreases ls.len() - i,
    {
        assert(lv[i as int] == ls@[i as int]@);
        let t = trim_str(ls[i].as_str());
        let tv = chars_of(t.as_str());
        if tv.len() > 0 && tv[0] != '#' {
            proof {
                lemma_first_content_at(lv, i as int);
            }
            return Some(t);
        }
        i = i + 1;
    }
    proof {
        lemma_first_content_none(lv);
    }
    None
}

/// The command a markdown file defines, given its text, its file stem and
/// where it was found: nothing when the trimmed stem or the trimmed body is
/// empty.
pub open spec fn markdown_command_spec(raw: Seq<char>, stem: Seq<char>, source: SlashCommandSource) -> Option<SpecView> {
    let (fm, body) = frontmatter_spec(raw);
    let name = trim(stem);
    if name.len() == 0 || trim(body).len() == 0 {
        None
    } else {
        Some(
            SpecView {
                name,
                aliases: Seq::empty(),
                description: match lookup(lines(fm), "description"@) {
                    Some(d) => d,
                    None => "Run "@ + name + " command"@,
                },
                argument_hint: lookup(lines(fm), "argument-hint"@),
                source,
                kind: KindView::FileBacked(trim(body)),
            },
        )
    }
}

/// The command a markdown file defines (its text read by the caller):
/// named by the file stem, described by its `description` entry, with the
/// trimmed body as its template.
pub fn parse_markdown_command(raw: &str, stem: &str, source: SlashCommandSource) -> (r: Option<SlashCommandSpec>)
    ensures
        match r {
            Some(c) => markdown_command_spec(raw@, stem@, source) == Some(c@),
            None => markdown_command_spec(raw@, stem@, source) is None,
        },
{
    let (frontmatter, body) = split_frontmatter(raw);
    let name = trim_str(stem);
    let template = trim_str(body.as_str());
    if name.as_str().unicode_len() == 0 || template.as_str().unicode_len() == 0 {
        return None;
    }
    let description = match frontmatter_value(frontmatter.as_str(), "description") {
        Some(d) => d,
        None => {
            let a = concat("Run ", name.as_str());
            concat(a.as_str(), " command")
        },
    };
    let argument_hint = frontmatter_value(frontmatter.as_str(), "argument-hint");
    let c = SlashCommandSpec {
        name,
        aliases: Vec::new(),
        description,
        argument_hint,
        source,
        kind: SlashCommandKind::FileBacked { template },
    };
    assert(c@.aliases =~= Seq::<Seq<char>>::empty());
    Some(c)
}

/// A skill found under the skills directory.
#[derive(Debug, Clone, PartialEq, Eq)]
pub struct DiscoveredSkill {
    pub name: String,
    pub description: String,
    pub path: String,
}

/// The name and description a skill's `SKILL.md` gives: the `name` entry,
/// else the directory name; the `description` entry, else the first content
/// line of the body, else a fixed text.
pub open spec fn skill_spec(raw: Seq<char>, dir_name: Seq<char>) -> (Seq<char>, Seq<char>) {
    let (fm, body) = frontmatter_spec(raw);
    (
        match lookup(lines(fm), "name"@) {
            Some(n) => n,
            None => dir_name,
        },
        match lookup(lines(fm), "description"@) {
            Some(d) => d,
            None => match first_content(lines(body)) {
                Some(l) => l,
                None => "No description available."@,
            },
        },
    )
}

/// The skill a `SKILL.md` text describes, found in the directory `path`
/// whose last component is `dir_name` (`unknown` when it has none).
pub fn skill_from_markdown(raw: &str, dir_name: &str, path: String) -> (s: DiscoveredSkill)
    ensures
        (s.name@, s.description@) == skill_spec(raw@, dir_name@),
        s.path@ == path@,
{
    let (frontmatter, body) = split_frontmatter(raw);
    let name = match frontmatter_value(frontmatter.as_str(), "name") {
        Some(n) => n,
        None => String::from_str(dir_name),
    };
    let description = match frontmatter_value(frontmatter.as_str(), "description") {
        Some(d) => d,
        None => match first_non_empty_line(body.as_str()) {
            Some(l) => l,
            None => String::from_str("No description available."),
        },
    };
    DiscoveredSkill { name, description, path }
}

/// The help text of `/mcp`.
pub fn mcp_help_text() -> (s: String)
    ensures
        s@ == "/mcp commands:\n- /mcp list\n- /mcp add <name> <command ...>\n- /mcp remove <name>\n- /mcp restart <name>\n- /mcp start <name>\n- /mcp stop <name>"@,
{
    String::from_str("/mcp commands:\n- /mcp list\n- /mcp add <name> <command ...>\n- /mcp remove <name>\n- /mcp restart <name>\n- /mcp start <name>\n- /mcp stop <name>")
}

/// The help text of `/plugin`.
pub fn plugin_help_text() -> (s: String)
    ensures
        s@ == "/plugin commands:\n- /plugin list\n- /plugin search <query>\n- /plugin install <name>\n- /plugin remove <name>\n- /plugin enable <name>\n- /plugin disable <name>\n- /plugin update <name>\n- /plugin update --all"@,
{
    String::from_str("/plugin commands:\n- /plugin list\n- /plugin search <query>\n- /plugin install <name>\n- /plugin remove <name>\n- /plugin enable <name>\n- /plugin disable <name>\n- /plugin update <name>\n- /plugin update --all")
}

/// The help text of `/skills`.
pub fn skills_help_text() -> (s: String)
    ensures
        s@ == "/skills commands:\n- /skills list\n- /skills show <name>\n- /skills path"@,
{
    String::from_str("/skills commands:\n- /skills list\n- /skills show <name>\n- /skills path")
}

/// The help text of `/plan`.
pub fn plan_help_text() -> (s: String)
    ensures
        s@ == "/plan enables plan mode. Once enabled, normal prompts are handled by the built-in Plan Agent.\n/plan while already in plan mode shows the current session plan.\n/plan open is reserved for opening the current plan in an external editor."@,
{
    String::from_str("/plan enables plan mode. Once enabled, normal prompts are handled by the built-in Plan Agent.\n/plan while already in plan mode shows the current session plan.\n/plan open is reserved for opening the current plan in an external editor.")
}

/// A session plan as shown to the user: its text, trimmed.
pub fn render_session_plan(plan: &String) -> (s: String)
    ensures
        s@ == trim(plan@),
{
    trim_str(plan.as_str())
}

/// The arguments of an MCP server as a suffix: empty when there are none,
/// else a space and the arguments separated by spaces.
pub fn format_args_suffix(args: &Vec<String>) -> (s: String)
    ensures
        s@ == if args@.len() == 0 {
            Seq::<char>::empty()
        } else {
            " "@ + join(views(args@), " "@)
        },
{
    if args.len() == 0 {
        String::new()
    } else {
        let joined = join_strs(args, " ");
        concat(" ", joined.as_str())
    }
}

} // verus!
