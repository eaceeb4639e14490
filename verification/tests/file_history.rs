use rustcode::file_history::{
    change_descriptors, changed_files, snapshot_changes, FileHistoryBatchEntry, FileHistoryOrigin,
    FileHistoryStore, FileMutationMetadata, RewindAction,
};

fn mutation(path: &str, existed: bool, backup: Option<&str>) -> FileMutationMetadata {
    FileMutationMetadata {
        session_id: "s1".to_string(),
        original_path: path.to_string(),
        absolute_path: format!("/proj/{}", path),
        existed_before: existed,
        backup_file: backup.map(|b| b.to_string()),
        captured_at: 0,
    }
}

fn entry(path: &str, origin: FileHistoryOrigin) -> FileHistoryBatchEntry {
    FileHistoryBatchEntry { mutation: mutation(path, true, Some("x.bak")), origin }
}

#[test]
fn descriptors_list_each_file_once_in_path_order() {
    let entries = vec![
        entry("src/b.rs", FileHistoryOrigin::FileWrite),
        entry("README.md", FileHistoryOrigin::FileEdit),
        entry("src/b.rs", FileHistoryOrigin::ExecuteCommandSnapshot),
        entry("src/a.rs", FileHistoryOrigin::ExecuteCommandSnapshot),
    ];
    let ds = change_descriptors(&entries, true);
    let paths: Vec<&str> = ds.iter().map(|d| d.path.as_str()).collect();
    assert_eq!(paths, vec!["README.md", "src/a.rs", "src/b.rs"]);
    assert_eq!(ds[2].origin, FileHistoryOrigin::FileWrite);
    assert!(ds.iter().all(|d| d.truncated));
    assert_eq!(changed_files(&entries), vec!["README.md".to_string(), "src/a.rs".to_string(), "src/b.rs".to_string()]);
}

#[test]
fn rewind_undoes_changes_newest_first() {
    let store = FileHistoryStore::for_project(Some("/proj"), None).ok().unwrap();
    let entries = vec![
        FileHistoryBatchEntry { mutation: mutation("a.rs", true, Some("k.bak")), origin: FileHistoryOrigin::FileEdit },
        FileHistoryBatchEntry { mutation: mutation("new.rs", false, None), origin: FileHistoryOrigin::FileWrite },
    ];
    let steps = store.rewind_actions(&entries);
    assert_eq!(
        steps,
        vec![
            RewindAction::RemoveIfPresent { target: "/proj/new.rs".to_string(), path: "new.rs".to_string() },
            RewindAction::Restore {
                backup: "/proj/rustcode/state/file-history/s1/k.bak".to_string(),
                target: "/proj/a.rs".to_string(),
                path: "a.rs".to_string(),
            },
        ]
    );
}

#[test]
fn rewind_stops_at_a_missing_backup() {
    let store = FileHistoryStore::for_project(Some("/proj"), None).ok().unwrap();
    let entries = vec![
        FileHistoryBatchEntry { mutation: mutation("a.rs", true, None), origin: FileHistoryOrigin::FileEdit },
        FileHistoryBatchEntry { mutation: mutation("b.rs", false, None), origin: FileHistoryOrigin::FileWrite },
    ];
    let steps = store.rewind_actions(&entries);
    assert_eq!(steps.len(), 2);
    assert_eq!(steps[1], RewindAction::Fail("Missing backup file for a.rs".to_string()));
}

#[test]
fn snapshots_show_changed_vanished_and_new_files() {
    let before = vec![("a".to_string(), 1u64), ("b".to_string(), 2), ("c".to_string(), 3)];
    let after = vec![("a".to_string(), 1u64), ("b".to_string(), 5), ("d".to_string(), 7)];
    let (changed, fresh) = snapshot_changes(&before, &after);
    assert_eq!(changed, vec![1, 2]);
    assert_eq!(fresh, vec![2]);
}

#[test]
fn command_snapshot_detects_modified_and_new_files() {
    let before = vec![("a.txt".to_string(), 11u64)];
    let after = vec![("a.txt".to_string(), 12u64), ("b.txt".to_string(), 13u64)];
    let (changed, fresh) = snapshot_changes(&before, &after);
    let mut paths: Vec<String> = changed.iter().map(|&i| before[i].0.clone()).collect();
    paths.extend(fresh.iter().map(|&i| after[i].0.clone()));
    paths.sort();
    assert_eq!(paths, vec!["a.txt".to_string(), "b.txt".to_string()]);
}

#[test]
fn capture_and_rewind_new_file_restores_absence() {
    let store = FileHistoryStore::for_project(Some("/proj"), None).ok().unwrap();
    let entries = vec![FileHistoryBatchEntry {
        mutation: mutation("notes.txt", false, None),
        origin: FileHistoryOrigin::FileWrite,
    }];
    let steps = store.rewind_actions(&entries);
    assert_eq!(
        steps,
        vec![RewindAction::RemoveIfPresent {
            target: "/proj/notes.txt".to_string(),
            path: "notes.txt".to_string(),
        }]
    );
}

#[test]
fn rewind_reads_file_history_batch_v2() {
    let store = FileHistoryStore::for_project(Some("/proj"), None).ok().unwrap();
    let entries = vec![FileHistoryBatchEntry {
        mutation: mutation("notes.txt", false, None),
        origin: FileHistoryOrigin::ExecuteCommandSnapshot,
    }];
    let steps = store.rewind_actions(&entries);
    assert_eq!(steps.len(), 1);
    assert!(matches!(&steps[0], RewindAction::RemoveIfPresent { path, .. } if path == "notes.txt"));
    assert_eq!(changed_files(&entries), vec!["notes.txt".to_string()]);
}
