use run_rs::errors::RunError;
use run_rs::find::{
    contains_entry_named, has_json_extension, json_files, locate_task_file, scan_entries, FsEntry,
    Scan,
};

fn file(name: &str) -> FsEntry {
    FsEntry {
        name: name.to_string(),
        is_dir: false,
    }
}

fn dir(name: &str) -> FsEntry {
    FsEntry {
        name: name.to_string(),
        is_dir: true,
    }
}

#[test]
fn scan_finds_tasks_json() {
    let entries = vec![file("readme.md"), file("tasks.json")];
    assert_eq!(scan_entries(&entries), Scan::TasksJson);
}

#[test]
fn scan_prefers_tasks_json_over_vscode_sibling() {
    let entries = vec![dir(".vscode"), file("tasks.json")];
    assert_eq!(scan_entries(&entries), Scan::TasksJson);
}

#[test]
fn scan_finds_vscode_dir() {
    let entries = vec![file("readme.md"), dir(".vscode")];
    assert_eq!(scan_entries(&entries), Scan::VscodeDir);
}

#[test]
fn scan_reports_vscode_conflict() {
    let entries = vec![file(".vscode")];
    assert_eq!(scan_entries(&entries), Scan::VscodeConflict);
}

#[test]
fn scan_reports_nothing() {
    let entries = vec![file("readme.md"), dir("src")];
    assert_eq!(scan_entries(&entries), Scan::Nothing);
    assert_eq!(scan_entries(&Vec::new()), Scan::Nothing);
}

#[test]
fn locate_returns_direct_tasks_json() {
    let d = "work".to_string();
    let result = locate_task_file(&d, &vec![file("tasks.json")], &Vec::new());
    assert_eq!(result.unwrap(), "work/tasks.json".to_string());
}

#[test]
fn locate_returns_nested_tasks_json() {
    let d = "work".to_string();
    let result = locate_task_file(&d, &vec![dir(".vscode")], &vec![file("tasks.json")]);
    assert_eq!(result.unwrap(), "work/.vscode/tasks.json".to_string());
}

#[test]
fn locate_fails_with_not_found() {
    let d = "work".to_string();
    let err = locate_task_file(&d, &vec![file("readme.md")], &Vec::new()).unwrap_err();
    assert!(matches!(err, RunError::NotFound(p) if p == "work"));
}

#[test]
fn locate_fails_with_conflict_on_vscode_file() {
    let d = "work".to_string();
    let err = locate_task_file(&d, &vec![file(".vscode")], &Vec::new()).unwrap_err();
    assert!(matches!(&err, RunError::ConfigurationConflict(p) if *p == "work"));
    assert_eq!(
        err.message(),
        "Expected `.vscode` in `work` to be a directory"
    );
}

#[test]
fn locate_fails_with_not_found_in_empty_vscode_dir() {
    let d = "work".to_string();
    let err = locate_task_file(&d, &vec![dir(".vscode")], &vec![file("other.json")]).unwrap_err();
    assert!(matches!(err, RunError::NotFound(p) if p == "work/.vscode"));
}

#[test]
fn contains_entry_named_looks_at_names_only() {
    let entries = vec![dir("a"), file("b")];
    assert!(contains_entry_named(&entries, &"a".to_string()));
    assert!(contains_entry_named(&entries, &"b".to_string()));
    assert!(!contains_entry_named(&entries, &"c".to_string()));
}

#[test]
fn json_extension_rule() {
    assert!(has_json_extension("a.json"));
    assert!(has_json_extension("dir/sub/task.json"));
    assert!(has_json_extension("x..json"));
    assert!(!has_json_extension(".json"));
    assert!(!has_json_extension("dir/.json"));
    assert!(!has_json_extension("a.txt"));
    assert!(!has_json_extension("json"));
    assert!(!has_json_extension("a.jsonx"));
    assert!(!has_json_extension(""));
}

#[test]
fn json_files_keeps_only_supported_paths_in_order() {
    let paths = vec![
        "one.json".to_string(),
        "two.txt".to_string(),
        "three/nested.json".to_string(),
        ".json".to_string(),
    ];
    assert_eq!(
        json_files(paths),
        vec!["one.json".to_string(), "three/nested.json".to_string()]
    );
    assert_eq!(json_files(Vec::new()), Vec::<String>::new());
}
