//! File history: where backups of changed files live, which project paths
//! are tracked, and how a tool's change is classified.

use vstd::prelude::*;
use crate::paths::{join_path, path_join, root_spec, str_view};
use crate::text::{
    eq_ignore_case, eq_ignore_case_str, has_prefix, lemma_str_less_total, lemma_str_less_transitive,
    opt_view, starts_with_str, str_eq, str_less, str_less_exec,
};

verus! {

/// The files a rewind restored and deleted.
#[derive(Debug, Clone, Default, PartialEq, Eq)]
pub struct FileRewindResult {
    pub restored_files: Vec<String>,
    pub deleted_files: Vec<String>,
}

/// What changed a file.
#[derive(Debug, Clone, Copy, PartialEq, Eq, Structural)]
pub enum FileHistoryOrigin {
    FileWrite,
    FileEdit,
    ExecuteCommandSnapshot,
}

/// A changed file as listed for the user.
#[derive(Debug, Clone, PartialEq, Eq)]
pub struct FileChangeDescriptor {
    pub path: String,
    pub origin: FileHistoryOrigin,
    pub truncated: bool,
}

/// Why a file history store could not be set up.
#[derive(Debug, Clone, PartialEq, Eq)]
pub enum FileHistoryError {
    NoHistoryDirectory,
}

impl FileHistoryError {
    /// The message shown to the user.
    pub fn message(&self) -> (m: String)
        ensures
            m@ == "Unable to determine file history directory"@,
    {
        String::from_str("Unable to determine file history directory")
    }
}

/// Where the backups of a project's changed files are kept.
#[derive(Debug)]
pub struct FileHistoryStore {
    root_dir: String,
    project_root: Option<String>,
}

impl FileHistoryStore {
    /// The directory of the store.
    pub closed spec fn root_spec(&self) -> Seq<char> {
        self.root_dir@
    }

    /// The project whose files are tracked.
    pub closed spec fn project_spec(&self) -> Option<Seq<char>> {
        opt_view(self.project_root)
    }

    /// The store of a project: `<root>/rustcode/state/file-history`, the
    /// root being `project_root`, else the working directory `current_dir`.
    pub fn for_project(project_root: Option<&str>, current_dir: Option<&str>) -> (r: Result<Self, FileHistoryError>)
        ensures
            match root_spec(str_view(project_root), str_view(current_dir)) {
                Some(root) => r matches Ok(s) && s.root_spec() == path_join(
                    path_join(path_join(root, "rustcode"@), "state"@),
                    "file-history"@,
                ) && s.project_spec() == str_view(project_root),
                None => r matches Err(FileHistoryError::NoHistoryDirectory),
            },
    {
        match crate::paths::project_file_history_dir(project_root, current_dir) {
            Some(d) => Ok(
                FileHistoryStore {
                    root_dir: d,
                    project_root: match project_root {
                        Some(p) => Some(String::from_str(p)),
                        None => None,
                    },
                },
            ),
            None => Err(FileHistoryError::NoHistoryDirectory),
        }
    }

    /// The directory of the backups of session `session_id`.
    pub fn session_dir(&self, session_id: &str) -> (d: String)
        ensures
            d@ == path_join(self.root_spec(), session_id@),
    {
        join_path(self.root_dir.as_str(), session_id)
    }
}

/// Whether a project-relative path lies in RustCode's own state or session
/// storage, which is never tracked.
pub open spec fn ignored_relative_spec(path: Seq<char>) -> bool {
    has_prefix(path, "rustcode/state/"@) || has_prefix(path, "rustcode/sessions/"@)
}

/// Whether a project-relative path is left out of tracking.
pub fn is_ignored_relative_path(path: &str) -> (b: bool)
    ensures
        b == ignored_relative_spec(path@),
{
    starts_with_str(path, "rustcode/state/") || starts_with_str(path, "rustcode/sessions/")
}

/// Whether a directory is skipped when the project is scanned: `.git`,
/// `target` or `node_modules`, ignoring ASCII case.
pub open spec fn ignored_dir_spec(name: Seq<char>) -> bool {
    eq_ignore_case(".git"@, name) || eq_ignore_case("target"@, name) || eq_ignore_case("node_modules"@, name)
}

/// Whether a directory is skipped when the project is scanned.
pub fn is_ignored_dir_name(name: &str) -> (b: bool)
    ensures
        b == ignored_dir_spec(name@),
{
    eq_ignore_case_str(".git", name) || eq_ignore_case_str("target", name) || eq_ignore_case_str(
        "node_modules",
        name,
    )
}

/// How the change recorded by a tool is classified: by `file_edit` as an
/// edit, by any other tool as a write.
pub fn origin_of_tool(tool_name: &str) -> (o: FileHistoryOrigin)
    ensures
        o == if tool_name@ == "file_edit"@ {
            FileHistoryOrigin::FileEdit
        } else {
            FileHistoryOrigin::FileWrite
        },
{
    if str_eq(tool_name, "file_edit") {
        FileHistoryOrigin::FileEdit
    } else {
        FileHistoryOrigin::FileWrite
    }
}


/// A recorded change to one file: where it lives, whether it existed
/// before, and the name of its backup (in the session's backup
/// directory) when it did.
#[derive(Debug, Clone, PartialEq, Eq)]
pub struct FileMutationMetadata {
    pub session_id: String,
    pub original_path: String,
    pub absolute_path: String,
    pub existed_before: bool,
    pub backup_file: Option<String>,
    pub captured_at: i64,
}

/// A recorded change and what made it.
#[derive(Debug, Clone, PartialEq, Eq)]
pub struct FileHistoryBatchEntry {
    pub mutation: FileMutationMetadata,
    pub origin: FileHistoryOrigin,
}

/// One step of a rewind.
#[derive(Debug, Clone, PartialEq, Eq)]
pub enum RewindAction {
    /// Copy the backup at `backup` over `target` (creating its directory);
    /// `path` is the file as the user named it.
    Restore { backup: String, target: String, path: String },
    /// Remove `target` if it exists; `path` is the file as the user named it.
    RemoveIfPresent { target: String, path: String },
    /// Stop: the change cannot be undone.
    Fail(String),
}

/// The mathematical value of a `RewindAction`.
pub enum RewindActionView {
    Restore { backup: Seq<char>, target: Seq<char>, path: Seq<char> },
    RemoveIfPresent { target: Seq<char>, path: Seq<char> },
    Fail(Seq<char>),
}

impl View for RewindAction {
    type V = RewindActionView;

    open spec fn view(&self) -> RewindActionView {
        match self {
            RewindAction::Restore { backup, target, path } => RewindActionView::Restore {
                backup: backup@,
                target: target@,
                path: path@,
            },
            RewindAction::RemoveIfPresent { target, path } => RewindActionView::RemoveIfPresent {
                target: target@,
                path: path@,
            },
            RewindAction::Fail(m) => RewindActionView::Fail(m@),
        }
    }
}

/// How one change is undone: a file that existed is restored from its
/// backup (a missing backup stops the rewind), a file the change created
/// is removed.
pub open spec fn undo_spec(root: Seq<char>, m: FileMutationMetadata) -> RewindActionView {
    if m.existed_before {
        match m.backup_file {
            Some(b) => RewindActionView::Restore {
                backup: path_join(path_join(root, m.session_id@), b@),
                target: m.absolute_path@,
                path: m.original_path@,
            },
            None => RewindActionView::Fail("Missing backup file for "@ + m.original_path@),
        }
    } else {
        RewindActionView::RemoveIfPresent { target: m.absolute_path@, path: m.original_path@ }
    }
}

/// The steps of a rewind: the changes undone newest first, up to and
/// including the first that cannot be undone.
pub open spec fn rewind_spec(root: Seq<char>, es: Seq<FileHistoryBatchEntry>) -> Seq<RewindActionView>
    decreases es.len(),
{
    if es.len() == 0 {
        Seq::empty()
    } else {
        let a = undo_spec(root, es.last().mutation);
        if a is Fail {
            seq![a]
        } else {
            seq![a] + rewind_spec(root, es.drop_last())
        }
    }
}

/// The views of a list of rewind steps.
pub open spec fn actions_view(v: Seq<RewindAction>) -> Seq<RewindActionView> {
    v.map_values(|a: RewindAction| a@)
}

impl FileHistoryStore {
    /// How one change is undone.
    pub fn undo_action(&self, m: &FileMutationMetadata) -> (a: RewindAction)
        ensures
            a@ == undo_spec(self.root_spec(), *m),
    {
        if m.existed_before {
            match &m.backup_file {
                Some(b) => {
                    let dir = self.session_dir(m.session_id.as_str());
                    RewindAction::Restore {
                        backup: join_path(dir.as_str(), b.as_str()),
                        target: m.absolute_path.clone(),
                        path: m.original_path.clone(),
                    }
                },
                None => {
                    let mut msg = String::from_str("Missing backup file for ");
                    msg.append(m.original_path.as_str());
                    RewindAction::Fail(msg)
                },
            }
        } else {
            RewindAction::RemoveIfPresent {
                target: m.absolute_path.clone(),
                path: m.original_path.clone(),
            }
        }
    }

    /// The steps that rewind the given changes, newest first; a change that
    /// cannot be undone ends the list with a failure.
    pub fn rewind_actions(&self, entries: &Vec<FileHistoryBatchEntry>) -> (r: Vec<RewindAction>)
        ensures
            actions_view(r@) == rewind_spec(self.root_spec(), entries@),
    {
        let mut out: Vec<RewindAction> = Vec::new();
        let mut k: usize = entries.len();
        assert(entries@.subrange(0, k as int) =~= entries@);
        assert(actions_view(out@) =~= Seq::<RewindActionView>::empty());
        while k > 0
            invariant
                k <= entries.len(),
                rewind_spec(self.root_spec(), entries@) == actions_view(out@) + rewind_spec(
                    self.root_spec(),
                    entries@.subrange(0, k as int),
                ),
                forall|j: int| 0 <= j < out@.len() ==> !(#[trigger] out@[j]@ is Fail),
            decreases k,
        {
            let ghost sub = entries@.subrange(0, k as int);
            assert(sub.drop_last() =~= entries@.subrange(0, k - 1));
            let a = self.undo_action(&entries[k - 1].mutation);
            let failed = match &a {
                RewindAction::Fail(_) => true,
                _ => false,
            };
            let ghost before = actions_view(out@);
            out.push(a);
            assert(actions_view(out@) =~= before.push(a@));
            if failed {
                assert(rewind_spec(self.root_spec(), sub) == seq![a@]);
                assert(actions_view(out@) =~= before + seq![a@]);
                return out;
            }
            assert(rewind_spec(self.root_spec(), sub) == seq![a@] + rewind_spec(
                self.root_spec(),
                entries@.subrange(0, k - 1),
            ));
            assert(before + (seq![a@] + rewind_spec(self.root_spec(), entries@.subrange(0, k - 1)))
                =~= before.push(a@) + rewind_spec(self.root_spec(), entries@.subrange(0, k - 1)));
            k = k - 1;
        }
        assert(entries@.subrange(0, 0) =~= Seq::<FileHistoryBatchEntry>::empty());
        assert(actions_view(out@) + Seq::<RewindActionView>::empty() =~= actions_view(out@));
        out
    }
}

/// The value recorded for `key` in a scan, if the scan has it.
pub open spec fn scan_lookup(scan: Seq<(String, u64)>, key: Seq<char>) -> Option<u64>
    decreases scan.len(),
{
    if scan.len() == 0 {
        None
    } else if scan[0].0@ == key {
        Some(scan[0].1)
    } else {
        scan_lookup(scan.drop_first(), key)
    }
}

/// Whether a file of the scan before a command changed: the scan after
/// it has no such file, or records another signature.
pub open spec fn entry_changed(after: Seq<(String, u64)>, entry: (String, u64)) -> bool {
    scan_lookup(after, entry.0@) != Some(entry.1)
}

fn find_in_scan(scan: &Vec<(String, u64)>, key: &str) -> (r: Option<u64>)
    ensures
        r == scan_lookup(scan@, key@),
{
    let mut i: usize = 0;
    assert(scan@.subrange(0, scan@.len() as int) =~= scan@);
    while i < scan.len()
        invariant
            i <= scan.len(),
            scan_lookup(scan@, key@) == scan_lookup(scan@.subrange(i as int, scan@.len() as int), key@),
        decreases scan.len() - i,
    {
        let ghost rest = scan@.subrange(i as int, scan@.len() as int);
        assert(rest.drop_first() =~= scan@.subrange(i + 1, scan@.len() as int));
        if str_eq(scan[i].0.as_str(), key) {
            return Some(scan[i].1);
        }
        i = i + 1;
    }
    None
}

/// What a command changed, by the project scans taken before and after
/// it (each a list of relative paths with their content signatures): the
/// positions, in the scan before, of the files that changed or vanished,
/// and the positions, in the scan after, of the files that are new.
pub fn snapshot_changes(before: &Vec<(String, u64)>, after: &Vec<(String, u64)>) -> (r: (Vec<usize>, Vec<usize>))
    ensures
        forall|k: int| 0 <= k < r.0@.len() ==> #[trigger] r.0@[k] < before@.len(),
        forall|k: int, l: int| 0 <= k < l < r.0@.len() ==> r.0@[k] < r.0@[l],
        forall|i: int| 0 <= i < before@.len() ==> (r.0@.contains(i as usize) <==> entry_changed(after@, #[trigger] before@[i])),
        forall|k: int| 0 <= k < r.1@.len() ==> #[trigger] r.1@[k] < after@.len(),
        forall|k: int, l: int| 0 <= k < l < r.1@.len() ==> r.1@[k] < r.1@[l],
        forall|i: int| 0 <= i < after@.len() ==> (r.1@.contains(i as usize) <==> scan_lookup(before@, #[trigger] after@[i].0@) is None),
{
    let mut changed: Vec<usize> = Vec::new();
    let mut i: usize = 0;
    while i < before.len()
        invariant
            i <= before.len(),
            forall|k: int| 0 <= k < changed@.len() ==> #[trigger] changed@[k] < i,
            forall|k: int, l: int| 0 <= k < l < changed@.len() ==> changed@[k] < changed@[l],
            forall|j: int| 0 <= j < i ==> (changed@.contains(j as usize) <==> entry_changed(after@, #[trigger] before@[j])),
        decreases before.len() - i,
    {
        let found = find_in_scan(after, before[i].0.as_str());
        let differs = match found {
            Some(sig) => sig != before[i].1,
            None => true,
        };
        if differs {
            let ghost prev = changed@;
            changed.push(i);
            assert forall|j: int| 0 <= j < i + 1 implies (changed@.contains(j as usize) <==> entry_changed(after@, #[trigger] before@[j])) by {
                if j < i {
                    if prev.contains(j as usize) {
                        let k = choose|k: int| 0 <= k < prev.len() && prev[k] == j as usize;
                        assert(changed@[k] == j as usize);
                    }
                    if changed@.contains(j as usize) {
                        let k = choose|k: int| 0 <= k < changed@.len() && changed@[k] == j as usize;
                        assert(k < prev.len());
                        assert(prev[k] == j as usize);
                    }
                } else {
                    assert(changed@[prev.len() as int] == i);
                }
            }
        } else {
            assert(!changed@.contains(i)) by {
                if changed@.contains(i) {
                    let k = choose|k: int| 0 <= k < changed@.len() && changed@[k] == i;
                    assert(changed@[k] < i);
                }
            }
        }
        i = i + 1;
    }
    let mut fresh: Vec<usize> = Vec::new();
    let mut j: usize = 0;
    while j < after.len()
        invariant
            j <= after.len(),
            forall|k: int| 0 <= k < fresh@.len() ==> #[trigger] fresh@[k] < j,
            forall|k: int, l: int| 0 <= k < l < fresh@.len() ==> fresh@[k] < fresh@[l],
            forall|m: int| 0 <= m < j ==> (fresh@.contains(m as usize) <==> scan_lookup(before@, #[trigger] after@[m].0@) is None),
        decreases after.len() - j,
    {
        let found = find_in_scan(before, after[j].0.as_str());
        if found.is_none() {
            let ghost prev = fresh@;
            fresh.push(j);
            assert forall|m: int| 0 <= m < j + 1 implies (fresh@.contains(m as usize) <==> scan_lookup(before@, #[trigger] after@[m].0@) is None) by {
                if m < j {
                    if prev.contains(m as usize) {
                        let k = choose|k: int| 0 <= k < prev.len() && prev[k] == m as usize;
                        assert(fresh@[k] == m as usize);
                    }
                    if fresh@.contains(m as usize) {
                        let k = choose|k: int| 0 <= k < fresh@.len() && fresh@[k] == m as usize;
                        assert(k < prev.len());
                        assert(prev[k] == m as usize);
                    }
                } else {
                    assert(fresh@[prev.len() as int] == j);
                }
            }
        } else {
            assert(!fresh@.contains(j)) by {
                if fresh@.contains(j) {
                    let k = choose|k: int| 0 <= k < fresh@.len() && fresh@[k] == j;
                    assert(fresh@[k] < j);
                }
            }
        }
        j = j + 1;
    }
    (changed, fresh)
}


/// The mathematical value of a `FileChangeDescriptor`.
pub struct DescriptorView {
    pub path: Seq<char>,
    pub origin: FileHistoryOrigin,
    pub truncated: bool,
}

impl View for FileChangeDescriptor {
    type V = DescriptorView;

    open spec fn view(&self) -> DescriptorView {
        DescriptorView { path: self.path@, origin: self.origin, truncated: self.truncated }
    }
}

/// The views of a list of descriptors.
pub open spec fn descriptors_view(v: Seq<FileChangeDescriptor>) -> Seq<DescriptorView> {
    v.map_values(|d: FileChangeDescriptor| d@)
}

/// What made the first recorded change to `path`, if any change is
/// recorded for it.
pub open spec fn first_origin(es: Seq<FileHistoryBatchEntry>, path: Seq<char>) -> Option<FileHistoryOrigin>
    decreases es.len(),
{
    if es.len() == 0 {
        None
    } else {
        match first_origin(es.drop_last(), path) {
            Some(o) => Some(o),
            None => if es.last().mutation.original_path@ == path {
                Some(es.last().origin)
            } else {
                None
            },
        }
    }
}

/// Descriptors in `String` order of their paths, each path once.
pub open spec fn paths_ordered(ds: Seq<DescriptorView>) -> bool {
    forall|i: int, j: int| 0 <= i < j < ds.len() ==> str_less(ds[i].path, ds[j].path)
}

/// The listing of recorded changes: one descriptor per changed file, in
/// `String` order of the paths, each with what made its first change and
/// the given truncation flag.
pub open spec fn describes(ds: Seq<DescriptorView>, es: Seq<FileHistoryBatchEntry>, truncated: bool) -> bool {
    &&& paths_ordered(ds)
    &&& forall|i: int| 0 <= i < ds.len() ==> first_origin(es, #[trigger] ds[i].path) == Some(ds[i].origin)
    &&& forall|i: int| 0 <= i < ds.len() ==> #[trigger] ds[i].truncated == truncated
    &&& forall|p: Seq<char>| #[trigger] first_origin(es, p) is Some ==> exists|i: int| 0 <= i < ds.len() && ds[i].path == p
}

proof fn lemma_first_origin_grows(es: Seq<FileHistoryBatchEntry>, k: int, p: Seq<char>)
    requires
        0 <= k < es.len(),
    ensures
        first_origin(es.subrange(0, k + 1), p) == match first_origin(es.subrange(0, k), p) {
            Some(o) => Some(o),
            None => if es[k].mutation.original_path@ == p {
                Some(es[k].origin)
            } else {
                None
            },
        },
{
    assert(es.subrange(0, k + 1).drop_last() =~= es.subrange(0, k));
}

/// The changed files, one descriptor each, in `String` order of their
/// paths: what made the first recorded change to a file is its origin,
/// and every descriptor carries `truncated`.
pub fn change_descriptors(entries: &Vec<FileHistoryBatchEntry>, truncated: bool) -> (r: Vec<FileChangeDescriptor>)
    ensures
        describes(descriptors_view(r@), entries@, truncated),
{
    let ghost es = entries@;
    let mut out: Vec<FileChangeDescriptor> = Vec::new();
    let mut k: usize = 0;
    assert(es.subrange(0, 0) =~= Seq::<FileHistoryBatchEntry>::empty());
    while k < entries.len()
        invariant
            k <= entries.len(),
            es == entries@,
            describes(descriptors_view(out@), es.subrange(0, k as int), truncated),
        decreases entries.len() - k,
    {
        let path = &entries[k].mutation.original_path;
        let ghost ds = descriptors_view(out@);
        let mut p: usize = 0;
        while p < out.len() && str_less_exec(out[p].path.as_str(), path.as_str())
            invariant
                p <= out.len(),
                ds == descriptors_view(out@),
                forall|j: int| 0 <= j < p ==> str_less(#[trigger] ds[j].path, path@),
            decreases out.len() - p,
        {
            p = p + 1;
        }
        let present = p < out.len() && str_eq(out[p].path.as_str(), path.as_str());
        proof {
            assert forall|q: Seq<char>| true implies #[trigger] first_origin(es.subrange(0, k + 1), q)
                == match first_origin(es.subrange(0, k as int), q) {
                Some(o) => Some(o),
                None => if es[k as int].mutation.original_path@ == q {
                    Some(es[k as int].origin)
                } else {
                    None
                },
            } by {
                lemma_first_origin_grows(es, k as int, q);
            }
            if p < out.len() {
                lemma_str_less_total(ds[p as int].path, path@);
            }
            assert forall|j: int| p <= j < ds.len() implies !str_less(#[trigger] ds[j].path, path@) by {
                if j > p {
                    lemma_str_less_total(ds[j].path, path@);
                    if str_less(ds[j].path, path@) {
                        lemma_str_less_transitive(ds[p as int].path, ds[j].path, path@);
                    }
                }
            }
        }
        if present {
            proof {
                assert(first_origin(es.subrange(0, k as int), path@) is Some);
                assert(describes(ds, es.subrange(0, k + 1), truncated));
            }
        } else {
            let d = FileChangeDescriptor { path: path.clone(), origin: entries[k].origin, truncated };
            let ghost dv = d@;
            out.insert(p, d);
            proof {
                let nds = descriptors_view(out@);
                assert(nds =~= ds.insert(p as int, dv));
                assert(first_origin(es.subrange(0, k as int), path@) is None) by {
                    if first_origin(es.subrange(0, k as int), path@) is Some {
                        let i = choose|i: int| 0 <= i < ds.len() && ds[i].path == path@;
                        if i < p {
                            lemma_str_less_total(ds[i].path, path@);
                        } else if i > p {
                            lemma_str_less_total(ds[p as int].path, path@);
                            lemma_str_less_total(path@, ds[i].path);
                            lemma_str_less_transitive(ds[p as int].path, ds[i].path, path@);
                            lemma_str_less_total(ds[p as int].path, path@);
                        }
                    }
                }
                assert forall|j: int| p <= j < ds.len() implies str_less(path@, #[trigger] ds[j].path) by {
                    lemma_str_less_total(ds[j].path, path@);
                    if j == p {
                    } else {
                        lemma_str_less_total(ds[p as int].path, path@);
                    }
                }
                assert(paths_ordered(nds)) by {
                    assert forall|i: int, j: int| 0 <= i < j < nds.len() implies str_less(nds[i].path, nds[j].path) by {
                        if j < p {
                            assert(nds[i] == ds[i] && nds[j] == ds[j]);
                        } else if j == p {
                            assert(nds[i] == ds[i]);
                        } else if i < p {
                            assert(nds[i] == ds[i] && nds[j] == ds[j - 1]);
                            lemma_str_less_transitive(ds[i].path, path@, ds[j - 1].path);
                        } else if i == p {
                            assert(nds[j] == ds[j - 1]);
                        } else {
                            assert(nds[i] == ds[i - 1] && nds[j] == ds[j - 1]);
                        }
                    }
                }
                assert forall|i: int| 0 <= i < nds.len() implies first_origin(es.subrange(0, k + 1), #[trigger] nds[i].path)
                    == Some(nds[i].origin) by {
                    if i < p {
                        assert(nds[i] == ds[i]);
                    } else if i > p {
                        assert(nds[i] == ds[i - 1]);
                    }
                }
                assert forall|i: int| 0 <= i < nds.len() implies #[trigger] nds[i].truncated == truncated by {
                    if i < p {
                        assert(nds[i] == ds[i]);
                    } else if i > p {
                        assert(nds[i] == ds[i - 1]);
                    }
                }
                assert forall|q: Seq<char>| #[trigger] first_origin(es.subrange(0, k + 1), q) is Some implies exists|i: int|
                    0 <= i < nds.len() && nds[i].path == q by {
                    if first_origin(es.subrange(0, k as int), q) is Some {
                        let i = choose|i: int| 0 <= i < ds.len() && ds[i].path == q;
                        if i < p {
                            assert(nds[i] == ds[i]);
                        } else {
                            assert(nds[i + 1] == ds[i]);
                        }
                    } else {
                        assert(nds[p as int].path == q);
                    }
                }
            }
        }
        k = k + 1;
    }
    assert(es.subrange(0, entries.len() as int) =~= es);
    out
}

/// The changed files, in `String` order, each once.
pub fn changed_files(entries: &Vec<FileHistoryBatchEntry>) -> (r: Vec<String>)
    ensures
        forall|i: int, j: int| 0 <= i < j < r@.len() ==> str_less(r@[i]@, r@[j]@),
        forall|i: int| 0 <= i < r@.len() ==> first_origin(entries@, #[trigger] r@[i]@) is Some,
        forall|p: Seq<char>| #[trigger] first_origin(entries@, p) is Some ==> exists|i: int|
            0 <= i < r@.len() && r@[i]@ == p,
{
    let ds = change_descriptors(entries, false);
    let ghost dv = descriptors_view(ds@);
    let mut out: Vec<String> = Vec::new();
    let mut i: usize = 0;
    while i < ds.len()
        invariant
            i <= ds.len(),
            out@.len() == i,
            forall|j: int| 0 <= j < i ==> #[trigger] out@[j]@ == ds@[j].path@,
        decreases ds.len() - i,
    {
        out.push(ds[i].path.clone());
        i = i + 1;
    }
    proof {
        assert forall|i: int| 0 <= i < out@.len() implies #[trigger] out@[i]@ == dv[i].path by {}
        assert forall|p: Seq<char>| #[trigger] first_origin(entries@, p) is Some implies exists|i: int|
            0 <= i < out@.len() && out@[i]@ == p by {
            let i = choose|i: int| 0 <= i < dv.len() && dv[i].path == p;
            assert(out@[i]@ == p);
        }
    }
    out
}

} // verus!
