//! What the desktop shell shows: the project name, short ids, status
//! labels, previews of turns and tasks, the turns a transcript can be
//! rewound to, and the preview of such a rewind.

use vstd::prelude::*;
use crate::agents::{AgentTask, AgentTaskStatus};
use crate::file_history::{DescriptorView, FileChangeDescriptor, descriptors_view};
use crate::session::{EntryView, Message, SessionInfo, SessionStatus, entries_view, find_message, position_of};
use crate::text::{chars_of, eq_ignore_case, eq_ignore_case_str, lemma_str_less_total, lemma_str_less_transitive, opt_view, str_less, split, split_char, str_eq, string_of, string_of_range, trim, views};

verus! {

/// The components of a `/`-separated path: its non-empty pieces other
/// than `.`.
pub open spec fn path_components(pieces: Seq<Seq<char>>) -> Seq<Seq<char>>
    decreases pieces.len(),
{
    if pieces.len() == 0 {
        Seq::empty()
    } else {
        let r = path_components(pieces.drop_last());
        let p = pieces.last();
        if p.len() == 0 || p == "."@ {
            r
        } else {
            r.push(p)
        }
    }
}

/// The last component of a path (`Path::file_name`): none for a path
/// without components or one that ends in `..`.
pub open spec fn file_name_spec(path: Seq<char>) -> Option<Seq<char>> {
    let comps = path_components(split(path, '/'));
    if comps.len() == 0 || comps.last() == ".."@ {
        None
    } else {
        Some(comps.last())
    }
}

/// The name of the project at `root`: its last path component, else
/// `rustcode`.
pub open spec fn project_name_spec(root: Option<Seq<char>>) -> Seq<char> {
    match root {
        Some(r) => match file_name_spec(r) {
            Some(n) => n,
            None => "rustcode"@,
        },
        None => "rustcode"@,
    }
}

/// The name of the project at `root`: its last path component, else
/// `rustcode`.
pub fn project_name_from_root(root: Option<&str>) -> (r: String)
    ensures
        r@ == project_name_spec(crate::paths::str_view(root)),
{
    let path = match root {
        Some(p) => p,
        None => {
            return String::from_str("rustcode");
        },
    };
    let pieces = split_char(path, '/');
    let ghost pv = views(pieces@);
    let mut comps: Vec<String> = Vec::new();
    let mut i: usize = 0;
    while i < pieces.len()
        invariant
            i <= pieces.len(),
            pv == views(pieces@),
            views(comps@) == path_components(pv.subrange(0, i as int)),
        decreases pieces.len() - i,
    {
        let ghost pre = pv.subrange(0, i + 1);
        assert(pre.drop_last() =~= pv.subrange(0, i as int));
        assert(pre.last() == pieces@[i as int]@);
        let p = pieces[i].as_str();
        if !(p.unicode_len() == 0 || str_eq(p, ".")) {
            let ghost before = views(comps@);
            comps.push(String::from_str(p));
            assert(views(comps@) =~= before.push(pre.last()));
        }
        i = i + 1;
    }
    assert(pv.subrange(0, pieces.len() as int) =~= pv);
    if comps.len() == 0 {
        return String::from_str("rustcode");
    }
    let last = comps[comps.len() - 1].as_str();
    assert(views(comps@).last() == comps@[comps.len() - 1]@);
    if str_eq(last, "..") {
        String::from_str("rustcode")
    } else {
        String::from_str(last)
    }
}

/// The first eight characters of an id (all of it when shorter).
pub fn short_id(id: &str) -> (r: String)
    ensures
        r@ == id@.take(if id@.len() < 8 { id@.len() as int } else { 8 }),
{
    let v = chars_of(id);
    let end = if v.len() < 8 { v.len() } else { 8 };
    let r = string_of_range(&v, 0, end);
    assert(r@ =~= id@.take(end as int));
    r
}

/// The label of a session status.
pub open spec fn session_status_name(s: SessionStatus) -> Seq<char> {
    match s {
        SessionStatus::Active => "active"@,
        SessionStatus::AwaitingApproval => "awaiting_approval"@,
        SessionStatus::Interrupted => "interrupted"@,
        SessionStatus::Completed => "completed"@,
    }
}

/// The label of a session status.
pub fn session_status_label(status: SessionStatus) -> (s: &'static str)
    ensures
        s@ == session_status_name(status),
{
    match status {
        SessionStatus::Active => "active",
        SessionStatus::AwaitingApproval => "awaiting_approval",
        SessionStatus::Interrupted => "interrupted",
        SessionStatus::Completed => "completed",
    }
}

/// The label of a task status.
pub open spec fn task_status_name(s: AgentTaskStatus) -> Seq<char> {
    match s {
        AgentTaskStatus::Pending => "pending"@,
        AgentTaskStatus::Running => "running"@,
        AgentTaskStatus::AwaitingApproval => "awaiting_approval"@,
        AgentTaskStatus::Completed => "completed"@,
        AgentTaskStatus::Failed => "failed"@,
        AgentTaskStatus::Cancelled => "cancelled"@,
    }
}

/// The label of a task status.
pub fn task_status_label(status: AgentTaskStatus) -> (s: &'static str)
    ensures
        s@ == task_status_name(status),
{
    match status {
        AgentTaskStatus::Pending => "pending",
        AgentTaskStatus::Running => "running",
        AgentTaskStatus::AwaitingApproval => "awaiting_approval",
        AgentTaskStatus::Completed => "completed",
        AgentTaskStatus::Failed => "failed",
        AgentTaskStatus::Cancelled => "cancelled",
    }
}

/// A text on one line: each line break turned into a space.
pub open spec fn one_line(s: Seq<char>) -> Seq<char> {
    s.map_values(|c: char| if c == '\n' { ' ' } else { c })
}

/// A text on one line, cut to its first `max` characters.
pub open spec fn clip_line_spec(s: Seq<char>, max: nat) -> Seq<char> {
    if s.len() <= max {
        one_line(s)
    } else {
        one_line(s).take(max as int)
    }
}

/// A text on one line, cut to its first `max` characters.
pub fn clip_line(s: &str, max: usize) -> (r: String)
    ensures
        r@ == clip_line_spec(s@, max as nat),
{
    let v = chars_of(s);
    let end = if v.len() <= max { v.len() } else { max };
    let mut out: Vec<char> = Vec::new();
    let mut i: usize = 0;
    while i < end
        invariant
            i <= end <= v.len(),
            v@ == s@,
            out@ == one_line(v@).take(i as int),
        decreases end - i,
    {
        let c = v[i];
        out.push(if c == '\n' { ' ' } else { c });
        assert(out@ =~= one_line(v@).take(i + 1));
        i = i + 1;
    }
    if v.len() <= max {
        assert(one_line(v@).take(end as int) =~= one_line(v@));
    }
    string_of(&out)
}

/// How a user turn is previewed: `(empty)` when blank, else its first 120
/// characters on one line.
pub open spec fn turn_preview_spec(content: Seq<char>) -> Seq<char> {
    if trim(content).len() == 0 {
        "(empty)"@
    } else {
        clip_line_spec(content, 120)
    }
}

/// How a user turn is previewed: `(empty)` when blank, else its first 120
/// characters on one line.
pub fn turn_preview(content: &str) -> (r: String)
    ensures
        r@ == turn_preview_spec(content@),
{
    if crate::text::is_blank_str(content) {
        String::from_str("(empty)")
    } else {
        clip_line(content, 120)
    }
}

/// The line that sums up a task: its result, else its error, else the
/// first 160 characters of its description on one line.
pub open spec fn task_summary_spec(result: Option<Seq<char>>, error: Option<Seq<char>>, description: Seq<char>) -> Seq<char> {
    match result {
        Some(r) => r,
        None => match error {
            Some(e) => e,
            None => clip_line_spec(description, 160),
        },
    }
}

/// The line that sums up a task.
pub fn task_summary_line(task: &AgentTask) -> (r: String)
    ensures
        r@ == task_summary_spec(opt_view(task.result_summary), opt_view(task.error), task.description@),
{
    match &task.result_summary {
        Some(r) => r.clone(),
        None => match &task.error {
            Some(e) => e.clone(),
            None => clip_line(task.description.as_str(), 160),
        },
    }
}

/// Texts in strictly increasing `String` order: sorted, none twice.
pub open spec fn strictly_sorted(s: Seq<Seq<char>>) -> bool {
    forall|i: int, j: int| 0 <= i < j < s.len() ==> str_less(s[i], s[j])
}

/// The texts of `v` in `String` order, each once.
pub fn sorted_unique(v: Vec<String>) -> (r: Vec<String>)
    ensures
        strictly_sorted(views(r@)),
        forall|x: Seq<char>| views(r@).contains(x) <==> views(v@).contains(x),
{
    let ghost vv = views(v@);
    let s = crate::init::sort_names(v);
    let ghost sv = views(s@);
    proof {
        broadcast use vstd::seq_lib::group_to_multiset_ensures;
        assert forall|x: Seq<char>| sv.contains(x) <==> vv.contains(x) by {
            assert(sv.to_multiset().count(x) == vv.to_multiset().count(x));
        }
    }
    let mut out: Vec<String> = Vec::new();
    let mut i: usize = 0;
    while i < s.len()
        invariant
            i <= s.len(),
            sv == views(s@),
            crate::init::names_sorted(sv),
            strictly_sorted(views(out@)),
            forall|x: Seq<char>| views(out@).contains(x) <==> sv.subrange(0, i as int).contains(x),
            i == 0 <==> out.len() == 0,
            i > 0 ==> views(out@).last() == sv[i - 1],
        decreases s.len() - i,
    {
        let ghost before = views(out@);
        let ghost cur = sv[i as int];
        assert(sv.subrange(0, i + 1) =~= sv.subrange(0, i as int).push(cur));
        if out.len() == 0 || !str_eq(out[out.len() - 1].as_str(), s[i].as_str()) {
            proof {
                if i > 0 {
                    let last = sv[i - 1];
                    assert(before.last() == out@[out.len() - 1]@);
                    assert(!str_less(cur, last));
                    lemma_str_less_total(cur, last);
                    assert(str_less(last, cur));
                    assert forall|k: int| 0 <= k < before.len() implies str_less(before[k], cur) by {
                        if k < before.len() - 1 {
                            lemma_str_less_transitive(before[k], last, cur);
                        }
                    }
                }
            }
            out.push(s[i].clone());
            assert(views(out@) =~= before.push(cur));
        } else {
            assert(before.last() == out@[out.len() - 1]@);
            assert(before.contains(cur));
        }
        proof {
            broadcast use vstd::seq_lib::group_seq_properties;
            let sub = sv.subrange(0, i as int);
            assert forall|x: Seq<char>| views(out@).contains(x) <==> sub.push(cur).contains(x) by {
                if x == cur {
                    assert(sub.push(cur)[sub.len() as int] == cur);
                }
            }
        }
        i = i + 1;
    }
    assert(sv.subrange(0, s.len() as int) =~= sv);
    out
}

/// What rewinding to a user turn would bring back and touch.
#[derive(Debug, Clone, PartialEq, Eq)]
pub struct RewindPreview {
    pub message_id: String,
    pub restored_input: String,
    pub modified_files: Vec<String>,
    pub deleted_files: Vec<String>,
    pub warnings: Vec<String>,
}

/// The warning for a change list cut short at `path`.
pub open spec fn truncation_warning(path: Seq<char>) -> Seq<char> {
    "Tracked file list is truncated after "@ + path
}

/// The paths of a change listing.
pub open spec fn descriptor_paths(ds: Seq<DescriptorView>) -> Seq<Seq<char>> {
    ds.map_values(|d: DescriptorView| d.path)
}

/// The warnings of a change listing: one for each entry cut short.
pub open spec fn truncation_warnings(ds: Seq<DescriptorView>) -> Seq<Seq<char>>
    decreases ds.len(),
{
    if ds.len() == 0 {
        Seq::empty()
    } else {
        let r = truncation_warnings(ds.drop_last());
        if ds.last().truncated {
            r.push(truncation_warning(ds.last().path))
        } else {
            r
        }
    }
}

/// The preview of a rewind to the user turn `message_id` of a transcript,
/// given the listing of file changes recorded after it: the turn's text to
/// restore, the changed files and the warnings, each sorted and once. A
/// missing turn, or one that is not the user's, is an error.
pub fn rewind_preview(
    messages: &Vec<Message>,
    message_id: &str,
    descriptors: &Vec<FileChangeDescriptor>,
) -> (r: Result<RewindPreview, String>)
    ensures
        match position_of(entries_view(messages@), message_id@) {
            None => r matches Err(e) && e@ == "Message not found: "@ + message_id@,
            Some(i) => if !eq_ignore_case(messages@[i].role@, "user"@) {
                r matches Err(e) && e@ == "Rewind requires a user message id, got "@ + messages@[i].role@
            } else {
                r matches Ok(p) && {
                    &&& p.message_id@ == message_id@
                    &&& p.restored_input@ == messages@[i].content@
                    &&& p.deleted_files@.len() == 0
                    &&& strictly_sorted(views(p.modified_files@))
                    &&& forall|x: Seq<char>| views(p.modified_files@).contains(x)
                        <==> descriptor_paths(descriptors_view(descriptors@)).contains(x)
                    &&& strictly_sorted(views(p.warnings@))
                    &&& forall|x: Seq<char>| views(p.warnings@).contains(x)
                        <==> truncation_warnings(descriptors_view(descriptors@)).contains(x)
                }
            },
        },
{
    let i = match find_message(messages, message_id) {
        Some(i) => i,
        None => {
            let mut e = String::from_str("Message not found: ");
            e.append(message_id);
            return Err(e);
        },
    };
    assert(entries_view(messages@)[i as int] == messages@[i as int]@);
    let target = &messages[i];
    if !eq_ignore_case_str(target.role.as_str(), "user") {
        let mut e = String::from_str("Rewind requires a user message id, got ");
        e.append(target.role.as_str());
        return Err(e);
    }
    let ghost dv = descriptors_view(descriptors@);
    let mut paths: Vec<String> = Vec::new();
    let mut warnings: Vec<String> = Vec::new();
    let mut k: usize = 0;
    while k < descriptors.len()
        invariant
            k <= descriptors.len(),
            dv == descriptors_view(descriptors@),
            views(paths@) == descriptor_paths(dv.subrange(0, k as int)),
            views(warnings@) == truncation_warnings(dv.subrange(0, k as int)),
        decreases descriptors.len() - k,
    {
        let d = &descriptors[k];
        let ghost sub = dv.subrange(0, k + 1);
        assert(sub.drop_last() =~= dv.subrange(0, k as int));
        assert(sub.last() == d@);
        let ghost p0 = views(paths@);
        paths.push(d.path.clone());
        assert(views(paths@) =~= p0.push(d.path@));
        assert(descriptor_paths(sub) =~= descriptor_paths(sub.drop_last()).push(d.path@));
        if d.truncated {
            let ghost w0 = views(warnings@);
            let mut w = String::from_str("Tracked file list is truncated after ");
            w.append(d.path.as_str());
            warnings.push(w);
            assert(views(warnings@) =~= w0.push(truncation_warning(d.path@)));
        }
        k = k + 1;
    }
    assert(dv.subrange(0, descriptors.len() as int) =~= dv);
    Ok(RewindPreview {
        message_id: String::from_str(message_id),
        restored_input: target.content.clone(),
        modified_files: sorted_unique(paths),
        deleted_files: Vec::new(),
        warnings: sorted_unique(warnings),
    })
}

/// A user turn that a transcript can be rewound to: its id, short id,
/// preview and time.
#[derive(Debug, Clone, PartialEq, Eq)]
pub struct TurnTarget {
    pub message_id: String,
    pub short_id: String,
    pub content_preview: String,
    pub timestamp: i64,
}

/// The mathematical value of a turn target.
pub struct TurnTargetView {
    pub message_id: Seq<char>,
    pub short_id: Seq<char>,
    pub content_preview: Seq<char>,
    pub timestamp: i64,
}

impl View for TurnTarget {
    type V = TurnTargetView;

    open spec fn view(&self) -> TurnTargetView {
        TurnTargetView {
            message_id: self.message_id@,
            short_id: self.short_id@,
            content_preview: self.content_preview@,
            timestamp: self.timestamp,
        }
    }
}

/// The first eight characters of an id (all of it when shorter).
pub open spec fn short_id_spec(id: Seq<char>) -> Seq<char> {
    id.take(if id.len() < 8 { id.len() as int } else { 8 })
}

/// The user turns of a transcript, in order, as rewind targets.
pub open spec fn turn_targets_spec(ms: Seq<EntryView>) -> Seq<TurnTargetView>
    decreases ms.len(),
{
    if ms.len() == 0 {
        Seq::empty()
    } else {
        let r = turn_targets_spec(ms.drop_last());
        let m = ms.last();
        if eq_ignore_case(m.role, "user"@) {
            r.push(
                TurnTargetView {
                    message_id: m.id,
                    short_id: short_id_spec(m.id),
                    content_preview: turn_preview_spec(m.content),
                    timestamp: m.timestamp,
                },
            )
        } else {
            r
        }
    }
}

/// The user turns of a transcript, in order, as rewind targets.
pub fn user_turn_targets(messages: &Vec<Message>) -> (r: Vec<TurnTarget>)
    ensures
        r@.map_values(|t: TurnTarget| t@) == turn_targets_spec(entries_view(messages@)),
{
    let ghost ev = entries_view(messages@);
    let mut out: Vec<TurnTarget> = Vec::new();
    let mut i: usize = 0;
    while i < messages.len()
        invariant
            i <= messages.len(),
            ev == entries_view(messages@),
            out@.map_values(|t: TurnTarget| t@) == turn_targets_spec(ev.subrange(0, i as int)),
        decreases messages.len() - i,
    {
        let m = &messages[i];
        let ghost sub = ev.subrange(0, i + 1);
        assert(sub.drop_last() =~= ev.subrange(0, i as int));
        assert(sub.last() == m@);
        if eq_ignore_case_str(m.role.as_str(), "user") {
            let ghost before = out@.map_values(|t: TurnTarget| t@);
            let t = TurnTarget {
                message_id: m.id.clone(),
                short_id: short_id(m.id.as_str()),
                content_preview: turn_preview(m.content.as_str()),
                timestamp: m.timestamp,
            };
            out.push(t);
            assert(out@.map_values(|t: TurnTarget| t@) =~= before.push(t@));
        }
        i = i + 1;
    }
    assert(ev.subrange(0, messages.len() as int) =~= ev);
    out
}

/// Which listed session takes over when session `deleted` is removed: the
/// first listed one with another id.
pub fn successor_after_delete(sessions: &Vec<SessionInfo>, deleted: &str) -> (r: Option<usize>)
    ensures
        match r {
            Some(i) => {
                &&& i < sessions@.len()
                &&& sessions@[i as int].id@ != deleted@
                &&& forall|k: int| 0 <= k < i ==> #[trigger] sessions@[k].id@ == deleted@
            },
            None => forall|k: int| 0 <= k < sessions@.len() ==> #[trigger] sessions@[k].id@ == deleted@,
        },
{
    let mut i: usize = 0;
    while i < sessions.len()
        invariant
            i <= sessions.len(),
            forall|k: int| 0 <= k < i ==> #[trigger] sessions@[k].id@ == deleted@,
        decreases sessions.len() - i,
    {
        if !str_eq(sessions[i].id.as_str(), deleted) {
            return Some(i);
        }
        i = i + 1;
    }
    None
}

/// A prompt as submitted: trimmed; a blank one is refused.
pub fn submitted_prompt(prompt: &str) -> (r: Result<String, String>)
    ensures
        trim(prompt@).len() == 0 ==> (r matches Err(e) && e@ == "Prompt cannot be empty"@),
        trim(prompt@).len() > 0 ==> (r matches Ok(p) && p@ == trim(prompt@)),
{
    let t = crate::text::trim_str(prompt);
    if t.as_str().unicode_len() == 0 {
        Err(String::from_str("Prompt cannot be empty"))
    } else {
        Ok(t)
    }
}

} // verus!
