use run_rs::errors::RunError;
use run_rs::parse::{path_has_extension, supported_extension, tasks};
use run_rs::parsers::{Parser, VSCode};

#[test]
fn extension_rule() {
    assert!(path_has_extension("a.json"));
    assert!(path_has_extension("dir/b.txt"));
    assert!(path_has_extension("x.a.b"));
    assert!(path_has_extension("trailing."));
    assert!(!path_has_extension(".bashrc"));
    assert!(!path_has_extension("dir/.bashrc"));
    assert!(!path_has_extension("noext"));
    assert!(!path_has_extension("dir.d/noext"));
    assert!(!path_has_extension(""));
}

#[test]
fn vscode_supported_extension() {
    let parser = VSCode;
    assert_eq!(parser.supported_extension(), vec!["json".to_string()]);
}

#[test]
fn vscode_parse_yields_no_tasks_yet() {
    let parser = VSCode;
    let parsed = parser.parse("{}".to_string()).unwrap();
    assert!(parsed.is_empty());
}

#[test]
fn supported_extension_flattens_parsers() {
    let parsers = vec![VSCode, VSCode];
    assert_eq!(
        supported_extension(&parsers),
        vec!["json".to_string(), "json".to_string()]
    );
    assert_eq!(supported_extension(&Vec::<VSCode>::new()), Vec::<String>::new());
}

#[test]
fn tasks_returns_empty_map_for_good_paths() {
    let parsers = vec![VSCode];
    let files = vec!["a.json".to_string(), "b/c.json".to_string()];
    let map = tasks(files, &parsers).unwrap();
    assert!(map.is_empty());
}

#[test]
fn tasks_rejects_first_path_without_extension() {
    let parsers = vec![VSCode];
    let files = vec![
        "a.json".to_string(),
        "noext".to_string(),
        "other".to_string(),
    ];
    let err = tasks(files, &parsers).unwrap_err();
    assert!(matches!(&err, RunError::ExtensionMissing(f) if *f == "noext"));
    assert_eq!(
        err.message(),
        "Could not determine extension of `noext`"
    );
}
