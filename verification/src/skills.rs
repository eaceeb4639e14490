//! `/skills`: the skills found under the skills directory, listed by
//! name, and the preview of one skill.

use vstd::prelude::*;
use crate::markdown::{frontmatter_spec, split_frontmatter, DiscoveredSkill};
use crate::text::{
    eq_ignore_case, eq_ignore_case_str, join, join_strs, lemma_str_less_total,
    lemma_str_less_transitive, lines, lines_str, str_less, str_less_exec, trim, trim_str, views,
};

verus! {

/// Skills in `String` order of their names.
pub open spec fn skills_sorted(s: Seq<DiscoveredSkill>) -> bool {
    forall|i: int, j: int| 0 <= i < j < s.len() ==> !str_less(s[j].name@, s[i].name@)
}

/// The skills ordered by name; skills of equal names keep their order.
pub fn sort_skills(skills: Vec<DiscoveredSkill>) -> (r: Vec<DiscoveredSkill>)
    ensures
        skills_sorted(r@),
        r@.to_multiset() == skills@.to_multiset(),
{
    let ghost all = skills@;
    let mut rest = skills;
    let mut out: Vec<DiscoveredSkill> = Vec::new();
    let ghost mut taken: int = 0;
    assert(all.subrange(0, 0) =~= Seq::<DiscoveredSkill>::empty());
    while rest.len() > 0
        invariant
            0 <= taken <= all.len(),
            rest@ == all.subrange(taken, all.len() as int),
            out@.to_multiset() == all.subrange(0, taken).to_multiset(),
            skills_sorted(out@),
        decreases rest.len(),
    {
        let x = rest.remove(0);
        assert(x == all[taken]);
        assert(rest@ =~= all.subrange(taken + 1, all.len() as int));
        let ghost before = out@;
        let mut p: usize = 0;
        while p < out.len() && !str_less_exec(x.name.as_str(), out[p].name.as_str())
            invariant
                p <= out.len(),
                before == out@,
                forall|j: int| 0 <= j < p ==> !str_less(x.name@, #[trigger] before[j].name@),
            decreases out.len() - p,
        {
            p = p + 1;
        }
        proof {
            assert forall|j: int| p <= j < before.len() implies str_less(x.name@, #[trigger] before[j].name@) by {
                if j > p {
                    lemma_str_less_total(before[j].name@, before[p as int].name@);
                    if before[j].name@ != before[p as int].name@ {
                        lemma_str_less_transitive(x.name@, before[p as int].name@, before[j].name@);
                    }
                }
            }
        }
        let ghost xv = x;
        out.insert(p, x);
        proof {
            let now = out@;
            assert(now =~= before.insert(p as int, xv));
            vstd::seq_lib::to_multiset_insert(before, p as int, xv);
            assert(all.subrange(0, taken + 1) =~= all.subrange(0, taken).push(all[taken]));
            vstd::seq_lib::to_multiset_build(all.subrange(0, taken), all[taken]);
            taken = taken + 1;
            assert forall|i: int, j: int| 0 <= i < j < now.len() implies !str_less(now[j].name@, now[i].name@) by {
                if j < p {
                    assert(now[i] == before[i] && now[j] == before[j]);
                } else if j == p {
                    assert(now[i] == before[i]);
                    lemma_str_less_total(xv.name@, before[i].name@);
                } else if i < p {
                    assert(now[i] == before[i] && now[j] == before[j - 1]);
                    lemma_str_less_total(xv.name@, before[i].name@);
                    lemma_str_less_total(before[j - 1].name@, xv.name@);
                    if str_less(before[j - 1].name@, before[i].name@) {
                        lemma_str_less_transitive(xv.name@, before[j - 1].name@, before[i].name@);
                        lemma_str_less_total(xv.name@, before[i].name@);
                    }
                } else if i == p {
                    assert(now[j] == before[j - 1]);
                    lemma_str_less_total(xv.name@, before[j - 1].name@);
                } else {
                    assert(now[i] == before[i - 1] && now[j] == before[j - 1]);
                }
            }
        }
    }
    assert(all.subrange(0, all.len() as int) =~= all);
    out
}

/// One skill in the listing: name and description, then its path on an
/// indented line.
pub open spec fn skill_line(s: DiscoveredSkill) -> Seq<char> {
    "- "@ + s.name@ + ": "@ + s.description@ + "\n  "@ + s.path@
}

/// The `/skills list` text: one entry per skill, or a note that none was
/// found under `root`.
pub open spec fn skills_list_spec(skills: Seq<DiscoveredSkill>, root: Seq<char>) -> Seq<char> {
    if skills.len() == 0 {
        "No local skills found under "@ + root + "."@
    } else {
        join(skills.map_values(|s: DiscoveredSkill| skill_line(s)), "\n"@)
    }
}

/// The `/skills list` text.
pub fn skills_list_text(skills: &Vec<DiscoveredSkill>, root: &str) -> (r: String)
    ensures
        r@ == skills_list_spec(skills@, root@),
{
    if skills.len() == 0 {
        let mut r = String::from_str("No local skills found under ");
        r.append(root);
        r.append(".");
        return r;
    }
    let mut lines: Vec<String> = Vec::new();
    let mut i: usize = 0;
    while i < skills.len()
        invariant
            i <= skills.len(),
            views(lines@) == skills@.subrange(0, i as int).map_values(|s: DiscoveredSkill| skill_line(s)),
        decreases skills.len() - i,
    {
        let s = &skills[i];
        let mut line = String::from_str("- ");
        line.append(s.name.as_str());
        line.append(": ");
        line.append(s.description.as_str());
        line.append("\n  ");
        line.append(s.path.as_str());
        let ghost before = views(lines@);
        lines.push(line);
        assert(views(lines@) =~= before.push(skill_line(*s)));
        assert(skills@.subrange(0, i + 1).map_values(|s: DiscoveredSkill| skill_line(s)) =~= skills@.subrange(
            0,
            i as int,
        ).map_values(|s: DiscoveredSkill| skill_line(s)).push(skill_line(skills@[i as int])));
        i = i + 1;
    }
    assert(skills@.subrange(0, skills.len() as int) =~= skills@);
    join_strs(&lines, "\n")
}

/// The first skill whose name is `name`, ignoring ASCII case.
pub open spec fn find_skill_spec(skills: Seq<DiscoveredSkill>, name: Seq<char>) -> Option<int>
    decreases skills.len(),
{
    if skills.len() == 0 {
        None
    } else if eq_ignore_case(skills[0].name@, name) {
        Some(0)
    } else {
        match find_skill_spec(skills.drop_first(), name) {
            Some(i) => Some(i + 1),
            None => None,
        }
    }
}

/// The position of the first skill named `name`, ignoring ASCII case.
pub fn find_skill(skills: &Vec<DiscoveredSkill>, name: &str) -> (r: Option<usize>)
    ensures
        match r {
            Some(i) => find_skill_spec(skills@, name@) == Some(i as int),
            None => find_skill_spec(skills@, name@) is None,
        },
{
    let mut i: usize = 0;
    assert(skills@.subrange(0, skills@.len() as int) =~= skills@);
    while i < skills.len()
        invariant
            i <= skills.len(),
            find_skill_spec(skills@, name@) == match find_skill_spec(
                skills@.subrange(i as int, skills@.len() as int),
                name@,
            ) {
                Some(k) => Some(k + i),
                None => None,
            },
        decreases skills.len() - i,
    {
        let ghost rest = skills@.subrange(i as int, skills@.len() as int);
        assert(rest.drop_first() =~= skills@.subrange(i + 1, skills@.len() as int));
        assert(rest[0] == skills@[i as int]);
        if eq_ignore_case_str(skills[i].name.as_str(), name) {
            return Some(i);
        }
        i = i + 1;
    }
    None
}

/// The preview of a skill: the first 24 lines of its `SKILL.md` body,
/// trimmed.
pub open spec fn preview_spec(raw: Seq<char>) -> Seq<char> {
    let ls = lines(frontmatter_spec(raw).1);
    trim(join(if ls.len() <= 24 { ls } else { ls.subrange(0, 24) }, "\n"@))
}

/// The preview of a skill.
pub fn skill_preview(raw: &str) -> (r: String)
    ensures
        r@ == preview_spec(raw@),
{
    let (_, body) = split_frontmatter(raw);
    let mut ls = lines_str(body.as_str());
    if ls.len() > 24 {
        ls.truncate(24);
    }
    assert(views(ls@) =~= {
        let all = lines(frontmatter_spec(raw@).1);
        if all.len() <= 24 { all } else { all.subrange(0, 24) }
    });
    let joined = join_strs(&ls, "\n");
    trim_str(joined.as_str())
}

/// The `/skills show` text of a skill with its preview.
pub fn skill_show_text(skill: &DiscoveredSkill, preview: &str) -> (r: String)
    ensures
        r@ == "Skill: "@ + skill.name@ + "\nDescription: "@ + skill.description@ + "\nPath: "@
            + skill.path@ + "\n\n"@ + preview@,
{
    let mut r = String::from_str("Skill: ");
    r.append(skill.name.as_str());
    r.append("\nDescription: ");
    r.append(skill.description.as_str());
    r.append("\nPath: ");
    r.append(skill.path.as_str());
    r.append("\n\n");
    r.append(preview);
    r
}

} // verus!
