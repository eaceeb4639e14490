//! `/init`: the `rustcode.md` guidance file, what it says about the
//! project, and whether an existing file is kept, replaced or extended.

use vstd::prelude::*;
use crate::paths::{join_path, path_join};
use crate::text::{
    concat, has_prefix, join, join_strs, lemma_str_less_total, lemma_str_less_transitive,
    starts_with_str, str_eq, str_less, str_less_exec, views,
};

verus! {

/// How `/init` treats an existing `rustcode.md`.
#[derive(Debug, Clone, Copy, PartialEq, Eq, Structural)]
pub enum InitMode {
    /// Leave it as it is.
    Create,
    /// Replace it.
    Force,
    /// Add the new text after it.
    Append,
}

impl InitMode {
    /// The mode `/init` flags ask for: `--append` wins over `--force`.
    pub fn from_flags(force: bool, append: bool) -> (m: Self)
        ensures
            m == if append {
                InitMode::Append
            } else if force {
                InitMode::Force
            } else {
                InitMode::Create
            },
    {
        if append {
            InitMode::Append
        } else if force {
            InitMode::Force
        } else {
            InitMode::Create
        }
    }
}

/// What `/init` did, and where.
#[derive(Debug, Clone, PartialEq, Eq)]
pub struct InitOutcome {
    pub path: String,
    pub message: String,
}

/// The kinds of project whose usual commands the file lists.
#[derive(Debug, Clone, Copy, PartialEq, Eq, Structural)]
pub enum ProjectType {
    Rust,
    JavaScript,
    Python,
    Go,
    Cpp,
    Unknown,
}

/// The usual build and test commands of a kind of project, one line
/// each; a JavaScript project with a `pnpm-lock.yaml` uses pnpm.
pub open spec fn command_lines(t: ProjectType, pnpm: bool) -> Seq<Seq<char>> {
    match t {
        ProjectType::Rust => seq![
            "- `cargo check` - verify the Rust workspace compiles"@,
            "- `cargo test` - run Rust tests"@,
            "- `cargo fmt --check` - check Rust formatting"@,
        ],
        ProjectType::JavaScript => if pnpm {
            seq![
                "- `pnpm install` - install dependencies"@,
                "- `pnpm run build` - build the project when available"@,
                "- `pnpm test` - run tests when available"@,
            ]
        } else {
            seq![
                "- `npm install` - install dependencies"@,
                "- `npm run build` - build the project when available"@,
                "- `npm test` - run tests when available"@,
            ]
        },
        ProjectType::Python => seq!["- `pytest` - run Python tests when configured"@],
        ProjectType::Go => seq!["- `go test ./...` - run Go tests"@],
        ProjectType::Cpp => seq!["- Use the repository CMake or Make workflow if present"@],
        ProjectType::Unknown => seq!["- Add project-specific build, lint, and test commands here"@],
    }
}

fn push_line(v: &mut Vec<String>, s: &str)
    ensures
        views(final(v)@) == views(old(v)@).push(s@),
{
    let ghost before = views(v@);
    v.push(String::from_str(s));
    assert(views(v@) =~= before.push(s@));
}

/// The usual build and test commands of a kind of project.
pub fn common_commands(project_type: ProjectType, has_pnpm_lock: bool) -> (r: String)
    ensures
        r@ == join(command_lines(project_type, has_pnpm_lock), "\n"@),
{
    let mut v: Vec<String> = Vec::new();
    assert(views(v@) =~= Seq::<Seq<char>>::empty());
    match project_type {
        ProjectType::Rust => {
            push_line(&mut v, "- `cargo check` - verify the Rust workspace compiles");
            push_line(&mut v, "- `cargo test` - run Rust tests");
            push_line(&mut v, "- `cargo fmt --check` - check Rust formatting");
        },
        ProjectType::JavaScript => {
            if has_pnpm_lock {
                push_line(&mut v, "- `pnpm install` - install dependencies");
                push_line(&mut v, "- `pnpm run build` - build the project when available");
                push_line(&mut v, "- `pnpm test` - run tests when available");
            } else {
                push_line(&mut v, "- `npm install` - install dependencies");
                push_line(&mut v, "- `npm run build` - build the project when available");
                push_line(&mut v, "- `npm test` - run tests when available");
            }
        },
        ProjectType::Python => push_line(&mut v, "- `pytest` - run Python tests when configured"),
        ProjectType::Go => push_line(&mut v, "- `go test ./...` - run Go tests"),
        ProjectType::Cpp => push_line(&mut v, "- Use the repository CMake or Make workflow if present"),
        ProjectType::Unknown => push_line(
            &mut v,
            "- Add project-specific build, lint, and test commands here",
        ),
    }
    assert(views(v@) =~= command_lines(project_type, has_pnpm_lock));
    join_strs(&v, "\n")
}

/// Whether a top-level entry is listed: not under `.git`, not `target`,
/// not `node_modules`.
pub open spec fn listed_name(n: Seq<char>) -> bool {
    !has_prefix(n, ".git"@) && n != "target"@ && n != "node_modules"@
}

/// The first `limit` listed names, in the order given.
pub open spec fn first_listed(names: Seq<Seq<char>>, limit: nat) -> Seq<Seq<char>>
    decreases names.len(),
{
    if names.len() == 0 || limit == 0 {
        Seq::empty()
    } else if listed_name(names[0]) {
        seq![names[0]] + first_listed(names.drop_first(), (limit - 1) as nat)
    } else {
        first_listed(names.drop_first(), limit)
    }
}

/// Names in `String` order.
pub open spec fn names_sorted(s: Seq<Seq<char>>) -> bool {
    forall|i: int, j: int| 0 <= i < j < s.len() ==> !str_less(s[j], s[i])
}

/// The text used when no entry is listed.
pub open spec fn structure_placeholder() -> Seq<char> {
    "- Add key directories and files here"@
}

/// One listed entry.
pub open spec fn structure_line(n: Seq<char>) -> Seq<char> {
    "- `"@ + n + "`"@
}

/// The repository-structure part of the file, given the listed entries
/// already sorted.
pub open spec fn structure_text(sorted: Seq<Seq<char>>) -> Seq<char> {
    if sorted.len() == 0 {
        structure_placeholder()
    } else {
        join(sorted.map_values(|n: Seq<char>| structure_line(n)), "\n"@)
    }
}

pub(crate) fn sort_names(v: Vec<String>) -> (r: Vec<String>)
    ensures
        names_sorted(views(r@)),
        views(r@).to_multiset() == views(v@).to_multiset(),
{
    let ghost all = views(v@);
    let mut rest = v;
    let mut out: Vec<String> = Vec::new();
    let ghost mut taken: int = 0;
    assert(all.subrange(0, 0) =~= Seq::<Seq<char>>::empty());
    assert(views(out@) =~= Seq::<Seq<char>>::empty());
    while rest.len() > 0
        invariant
            0 <= taken <= all.len(),
            views(rest@) == all.subrange(taken, all.len() as int),
            views(out@).to_multiset() == all.subrange(0, taken).to_multiset(),
            names_sorted(views(out@)),
        decreases rest.len(),
    {
        let ghost rest_view = views(rest@);
        let ghost rest_seq = rest@;
        assert(rest_view.len() == rest_seq.len());
        assert(rest_view[0] == rest_seq[0]@);
        assert(all.subrange(taken, all.len() as int)[0] == all[taken]);
        let x = rest.remove(0);
        assert(x@ == all[taken]);
        assert(rest@ =~= rest_seq.subrange(1, rest_seq.len() as int));
        assert forall|j: int| 0 <= j < views(rest@).len() implies #[trigger] views(rest@)[j] == all[taken
            + 1 + j] by {
            assert(rest@[j] == rest_seq[j + 1]);
            assert(rest_view[j + 1] == rest_seq[j + 1]@);
            assert(all.subrange(taken, all.len() as int)[j + 1] == all[taken + 1 + j]);
        }
        assert(views(rest@) =~= all.subrange(taken + 1, all.len() as int));
        let ghost before = views(out@);
        let mut p: usize = 0;
        while p < out.len() && !str_less_exec(x.as_str(), out[p].as_str())
            invariant
                p <= out.len(),
                before == views(out@),
                forall|j: int| 0 <= j < p ==> !str_less(x@, #[trigger] before[j]),
            decreases out.len() - p,
        {
            p = p + 1;
        }
        proof {
            assert forall|j: int| p <= j < before.len() implies str_less(x@, #[trigger] before[j]) by {
                if j > p {
                    lemma_str_less_total(before[j], before[p as int]);
                    if str_less(before[j], before[p as int]) {
                        assert(false);
                    }
                    if before[j] != before[p as int] {
                        lemma_str_less_transitive(x@, before[p as int], before[j]);
                    }
                }
            }
        }
        let ghost xv = x@;
        out.insert(p, x);
        proof {
            let now = views(out@);
            assert(now =~= before.insert(p as int, xv));
            vstd::seq_lib::to_multiset_insert(before, p as int, xv);
            assert(all.subrange(0, taken + 1) =~= all.subrange(0, taken).push(all[taken]));
            vstd::seq_lib::to_multiset_build(all.subrange(0, taken), all[taken]);
            taken = taken + 1;
            assert forall|i: int, j: int| 0 <= i < j < now.len() implies !str_less(now[j], now[i]) by {
                if j < p {
                    assert(now[i] == before[i] && now[j] == before[j]);
                } else if j == p {
                    assert(now[i] == before[i]);
                    lemma_str_less_total(xv, before[i]);
                } else if i < p {
                    assert(now[i] == before[i] && now[j] == before[j - 1]);
                    lemma_str_less_total(xv, before[i]);
                    lemma_str_less_total(before[j - 1], xv);
                    if str_less(before[j - 1], before[i]) {
                        lemma_str_less_transitive(xv, before[j - 1], before[i]);
                        lemma_str_less_total(xv, before[i]);
                    }
                } else if i == p {
                    assert(now[j] == before[j - 1]);
                    lemma_str_less_total(xv, before[j - 1]);
                } else {
                    assert(now[i] == before[i - 1] && now[j] == before[j - 1]);
                }
            }
        }
    }
    assert(all.subrange(0, all.len() as int) =~= all);
    out
}

fn is_listed(n: &str) -> (b: bool)
    ensures
        b == listed_name(n@),
{
    !starts_with_str(n, ".git") && !str_eq(n, "target") && !str_eq(n, "node_modules")
}

/// The repository-structure part of the file, from the project's
/// top-level entries in the order they were read (`None` when the
/// directory could not be read): up to twelve listed entries, sorted.
pub fn top_level_structure(names: Option<Vec<String>>) -> (r: String)
    ensures
        match names {
            None => r@ == structure_placeholder(),
            Some(v) => exists|sorted: Seq<Seq<char>>| {
                &&& names_sorted(sorted)
                &&& sorted.to_multiset() == first_listed(views(v@), 12).to_multiset()
                &&& r@ == structure_text(sorted)
            },
        },
{
    let names = match names {
        None => {
            return String::from_str("- Add key directories and files here");
        },
        Some(v) => v,
    };
    let ghost nv = views(names@);
    let mut kept: Vec<String> = Vec::new();
    let mut i: usize = 0;
    assert(nv.subrange(0, nv.len() as int) =~= nv);
    assert(views(kept@) =~= Seq::<Seq<char>>::empty());
    while i < names.len() && kept.len() < 12
        invariant
            i <= names.len(),
            kept.len() <= 12,
            nv == views(names@),
            first_listed(nv, 12) == views(kept@) + first_listed(
                nv.subrange(i as int, nv.len() as int),
                (12 - kept.len()) as nat,
            ),
        decreases names.len() - i,
    {
        let ghost rest = nv.subrange(i as int, nv.len() as int);
        assert(rest.drop_first() =~= nv.subrange(i + 1, nv.len() as int));
        assert(rest[0] == names@[i as int]@);
        if is_listed(names[i].as_str()) {
            let ghost before = views(kept@);
            kept.push(names[i].clone());
            assert(views(kept@) =~= before.push(nv[i as int]));
            assert(before + (seq![nv[i as int]] + first_listed(
                nv.subrange(i + 1, nv.len() as int),
                (12 - kept.len()) as nat,
            )) =~= views(kept@) + first_listed(
                nv.subrange(i + 1, nv.len() as int),
                (12 - kept.len()) as nat,
            ));
        }
        i = i + 1;
    }
    assert(first_listed(nv.subrange(i as int, nv.len() as int), (12 - kept.len()) as nat) =~= Seq::<
        Seq<char>,
    >::empty());
    assert(views(kept@) + Seq::<Seq<char>>::empty() =~= views(kept@));
    let sorted = sort_names(kept);
    let ghost sv = views(sorted@);
    if sorted.len() == 0 {
        return String::from_str("- Add key directories and files here");
    }
    let mut lines: Vec<String> = Vec::new();
    let mut k: usize = 0;
    while k < sorted.len()
        invariant
            k <= sorted.len(),
            sv == views(sorted@),
            views(lines@) == sv.subrange(0, k as int).map_values(|n: Seq<char>| structure_line(n)),
        decreases sorted.len() - k,
    {
        let mut line = String::from_str("- `");
        line.append(sorted[k].as_str());
        line.append("`");
        assert(sv[k as int] == sorted@[k as int]@);
        assert(line@ == structure_line(sv[k as int]));
        let ghost before = views(lines@);
        lines.push(line);
        assert(views(lines@) =~= before.push(structure_line(sv[k as int])));
        assert(sv.subrange(0, k + 1).map_values(|n: Seq<char>| structure_line(n)) =~= sv.subrange(
            0,
            k as int,
        ).map_values(|n: Seq<char>| structure_line(n)).push(structure_line(sv[k as int])));
        k = k + 1;
    }
    assert(sv.subrange(0, sv.len() as int) =~= sv);
    join_strs(&lines, "\n")
}

/// The text `/init` adds after an existing file: a line break if the file
/// does not end with one, a blank line, a refresh marker, then the new
/// text.
pub open spec fn appended_text(existing: Seq<char>, content: Seq<char>) -> Seq<char> {
    let base = if existing.len() > 0 && existing.last() == '\n' {
        existing
    } else {
        existing.push('\n')
    };
    base.push('\n') + "<!-- rustcode init refresh -->\n\n"@ + content
}

/// What `/init` is to do.
#[derive(Debug, Clone, PartialEq, Eq)]
pub enum InitStep {
    /// Leave the file alone and report this.
    Report(InitOutcome),
    /// Write `text` to the file and report this.
    Write { text: String, outcome: InitOutcome },
}

/// The verb of the report for each mode.
pub open spec fn init_verb(mode: InitMode) -> Seq<char> {
    match mode {
        InitMode::Create => "Created"@,
        InitMode::Force => "Updated"@,
        InitMode::Append => "Appended"@,
    }
}

/// The message when `rustcode.md` exists and is left alone.
pub open spec fn exists_message() -> Seq<char> {
    "rustcode.md already exists. Use /init --force to overwrite or /init --append to append."@
}

/// What `/init` does with `rustcode.md` in `cwd`, given the file's text
/// when it exists (`None` when it does not; an unreadable file counts as
/// empty) and the new text: an existing file is left alone in `Create`
/// mode, replaced in `Force` mode and extended in `Append` mode; a
/// missing file is written.
pub fn plan_init(cwd: &str, existing: Option<String>, mode: InitMode, content: &str) -> (step: InitStep)
    ensures
        ({
            let path = path_join(cwd@, "rustcode.md"@);
            match existing {
                Some(e) => match mode {
                    InitMode::Create => step is Report && step_path(step)@ == path && step_message(
                        step,
                    )@ == exists_message(),
                    _ => step is Write && step_path(step)@ == path && step_text(step)@ == (if mode
                        == InitMode::Force {
                        content@
                    } else {
                        appended_text(e@, content@)
                    }) && step_message(step)@ == init_verb(mode) + " "@ + path + "."@,
                },
                None => step is Write && step_path(step)@ == path && step_text(step)@ == content@
                    && step_message(step)@ == init_verb(mode) + " "@ + path + "."@,
            }
        }),
{
    proof {
        reveal_strlit("rustcode.md");
        reveal_strlit("\n");
    }
    let path = join_path(cwd, "rustcode.md");
    let text = match existing {
        Some(e) => match mode {
            InitMode::Create => {
                return InitStep::Report(
                    InitOutcome {
                        path,
                        message: String::from_str(
                            "rustcode.md already exists. Use /init --force to overwrite or /init --append to append.",
                        ),
                    },
                );
            },
            InitMode::Force => String::from_str(content),
            InitMode::Append => {
                let ev = crate::text::chars_of(e.as_str());
                let ghost base = if e@.len() > 0 && e@.last() == '\n' {
                    e@
                } else {
                    e@.push('\n')
                };
                let mut t = e;
                if !(ev.len() > 0 && ev[ev.len() - 1] == '\n') {
                    t.append("\n");
                }
                t.append("\n");
                assert(t@ == base.push('\n'));
                t.append("<!-- rustcode init refresh -->\n\n");
                t.append(content);
                t
            },
        },
        None => String::from_str(content),
    };
    let verb = match mode {
        InitMode::Create => "Created",
        InitMode::Force => "Updated",
        InitMode::Append => "Appended",
    };
    let mut message = String::from_str(verb);
    message.append(" ");
    message.append(path.as_str());
    message.append(".");
    InitStep::Write { text, outcome: InitOutcome { path, message } }
}

/// The path an init step reports.
pub open spec fn step_path(s: InitStep) -> String {
    match s {
        InitStep::Report(o) => o.path,
        InitStep::Write { outcome, .. } => outcome.path,
    }
}

/// The message an init step reports.
pub open spec fn step_message(s: InitStep) -> String {
    match s {
        InitStep::Report(o) => o.message,
        InitStep::Write { outcome, .. } => outcome.message,
    }
}

/// The text an init step writes (empty when it writes nothing).
pub open spec fn step_text(s: InitStep) -> String {
    match s {
        InitStep::Write { text, .. } => text,
        InitStep::Report(_) => arbitrary(),
    }
}

/// The opening of `rustcode.md`, up to the project type.
pub open spec fn md_head() -> Seq<char> {
    "# rustcode.md\n\nThis file provides guidance to RustCode when working in this repository.\n\n## Project Overview\n\n- Project type: "@
}

/// The rest of `rustcode.md` after the repository structure.
pub open spec fn md_tail() -> Seq<char> {
    "\n\n## Coding Conventions\n\n- Follow the existing style in nearby files.\n- Prefer minimal, reviewable changes.\n- Verify changed behavior with the most relevant test or build command.\n\n## Tool and Permission Notes\n\n- Do not commit secrets or real credentials.\n- Treat file writes, shell commands, plugin installation, and networked actions as high-impact operations.\n\n## Known Constraints\n\n- Keep this file concise. Add only repository-specific facts that RustCode would not reliably infer from source files.\n"@
}

/// The text of `rustcode.md`: the project's type and root, its usual
/// commands and its top-level structure, then standing conventions.
pub open spec fn rustcode_md_spec(kind: Seq<char>, root: Seq<char>, commands: Seq<char>, structure: Seq<char>) -> Seq<char> {
    md_head() + kind + "\n- Workspace root: "@ + root + "\n\n## Build and Test Commands\n\n"@ + commands
        + "\n\n## Repository Structure\n\n"@ + structure + md_tail()
}

/// The text of `rustcode.md` for a project of the kind named `kind` at
/// `root`, with its usual commands and its structure.
pub fn build_rustcode_md(kind: &str, root: &str, commands: &str, structure: &str) -> (r: String)
    ensures
        r@ == rustcode_md_spec(kind@, root@, commands@, structure@),
{
    let mut r = String::from_str(
        "# rustcode.md\n\nThis file provides guidance to RustCode when working in this repository.\n\n## Project Overview\n\n- Project type: ",
    );
    r.append(kind);
    r.append("\n- Workspace root: ");
    r.append(root);
    r.append("\n\n## Build and Test Commands\n\n");
    r.append(commands);
    r.append("\n\n## Repository Structure\n\n");
    r.append(structure);
    r.append(
        "\n\n## Coding Conventions\n\n- Follow the existing style in nearby files.\n- Prefer minimal, reviewable changes.\n- Verify changed behavior with the most relevant test or build command.\n\n## Tool and Permission Notes\n\n- Do not commit secrets or real credentials.\n- Treat file writes, shell commands, plugin installation, and networked actions as high-impact operations.\n\n## Known Constraints\n\n- Keep this file concise. Add only repository-specific facts that RustCode would not reliably infer from source files.\n",
    );
    r
}

} // verus!
