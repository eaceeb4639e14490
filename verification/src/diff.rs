//! The `/diff` report: what the working tree's git state is shown as.

use vstd::prelude::*;
use crate::text::{concat, is_blank_str, trim, trim_str};

verus! {

/// The report shown outside a git work tree.
pub open spec fn not_a_repository() -> Seq<char> {
    "Current working directory is not a git repository."@
}

/// The report shown for a clean work tree.
pub open spec fn clean_tree() -> Seq<char> {
    "Working tree is clean."@
}

/// The `/diff` report from what git said: whether the directory is in a
/// work tree, the short status, and the patch (`full`) or the diff stat.
pub open spec fn diff_report_spec(inside_repo: bool, status: Seq<char>, full: bool, detail: Seq<char>) -> Seq<char> {
    if !inside_repo {
        not_a_repository()
    } else if trim(status).len() == 0 {
        clean_tree()
    } else if trim(detail).len() == 0 {
        "Changed files:\n"@ + trim(status)
    } else {
        "Changed files:\n"@ + trim(status) + (if full {
            "\n\nPatch:\n"@
        } else {
            "\n\nDiff stat:\n"@
        }) + trim(detail)
    }
}

/// Whether the report needs the patch or stat: only inside a work tree
/// with changes.
pub fn diff_needs_detail(inside_repo: bool, status: &str) -> (b: bool)
    ensures
        b == (inside_repo && trim(status@).len() != 0),
{
    inside_repo && !is_blank_str(status)
}

/// The `/diff` report from what git said: whether the directory is in a
/// work tree, the short status, and the patch (`full`) or the diff stat;
/// `detail` is read only when `diff_needs_detail` holds.
pub fn diff_report(inside_repo: bool, status: &str, full: bool, detail: &str) -> (r: String)
    ensures
        r@ == diff_report_spec(inside_repo, status@, full, detail@),
{
    if !inside_repo {
        return String::from_str("Current working directory is not a git repository.");
    }
    if is_blank_str(status) {
        return String::from_str("Working tree is clean.");
    }
    let s = trim_str(status);
    let mut out = concat("Changed files:\n", s.as_str());
    if is_blank_str(detail) {
        return out;
    }
    if full {
        out.append("\n\nPatch:\n");
    } else {
        out.append("\n\nDiff stat:\n");
    }
    let d = trim_str(detail);
    out.append(d.as_str());
    out
}

} // verus!
