use vstd::prelude::*;

use crate::errors::RunError;

verus! {

use vstd::string::StringExecFns;

/// The view of an optional string: present inputs keep their character
/// sequence, absent ones stay absent.
pub open spec fn opt_view(o: Option<String>) -> Option<Seq<char>> {
    match o {
        Some(s) => Some(s@),
        None => None,
    }
}

/// The configuration directory that the three layered environment
/// inputs resolve to, in precedence order: the custom override is taken
/// verbatim, an XDG config home gets `/run_rs` appended, a home
/// directory gets `/.config/run_rs` appended.  A present input wins
/// even when it is the empty string.  Resolution fails only when all
/// three inputs are absent.
pub open spec fn config_dir_spec(
    run_rs_config: Option<Seq<char>>,
    xdg_config_home: Option<Seq<char>>,
    home: Option<Seq<char>>,
) -> Result<Seq<char>, RunError> {
    match run_rs_config {
        Some(path) => Ok(path),
        None => match xdg_config_home {
            Some(path) => Ok(path + "/run_rs"@),
            None => match home {
                Some(path) => Ok(path + "/.config/run_rs"@),
                None => Err(RunError::ConfigurationMissing),
            },
        },
    }
}

/// Resolves the configuration directory from the three environment
/// inputs (custom override, XDG config home, home directory), a pure
/// function of its arguments.
pub fn config_dir(
    run_rs_config: Option<String>,
    xdg_config_home: Option<String>,
    home: Option<String>,
) -> (r: Result<String, RunError>)
    ensures
        ({
            let s = config_dir_spec(opt_view(run_rs_config), opt_view(xdg_config_home), opt_view(home));
            &&& r is Ok <==> s is Ok
            &&& r matches Ok(p) ==> p@ == s->Ok_0
            &&& r matches Err(e) ==> e == s->Err_0
        }),
{
    match run_rs_config {
        Some(path) => Ok(path),
        None => match xdg_config_home {
            Some(path) => Ok(path.concat("/run_rs")),
            None => match home {
                Some(path) => Ok(path.concat("/.config/run_rs")),
                None => Err(RunError::ConfigurationMissing),
            },
        },
    }
}

/// The precedence law of the configuration directory: each input is
/// consulted only when every input before it is absent, and a present
/// input decides the result even when it holds the empty string.
pub proof fn lemma_config_dir_precedence(
    run_rs_config: Option<Seq<char>>,
    xdg_config_home: Option<Seq<char>>,
    home: Option<Seq<char>>,
)
    ensures
        run_rs_config is Some ==> config_dir_spec(run_rs_config, xdg_config_home, home)
            == Ok::<Seq<char>, RunError>(run_rs_config->0),
        run_rs_config is None && xdg_config_home is Some ==> config_dir_spec(
            run_rs_config,
            xdg_config_home,
            home,
        ) == Ok::<Seq<char>, RunError>(xdg_config_home->0 + "/run_rs"@),
        run_rs_config is None && xdg_config_home is None && home is Some ==> config_dir_spec(
            run_rs_config,
            xdg_config_home,
            home,
        ) == Ok::<Seq<char>, RunError>(home->0 + "/.config/run_rs"@),
{
}

/// Resolution fails exactly when all three inputs are absent, and then
/// with the error that names the missing configuration.
pub proof fn lemma_config_dir_fails_iff_all_absent(
    run_rs_config: Option<Seq<char>>,
    xdg_config_home: Option<Seq<char>>,
    home: Option<Seq<char>>,
)
    ensures
        config_dir_spec(run_rs_config, xdg_config_home, home) is Err <==> (run_rs_config is None
            && xdg_config_home is None && home is None),
        config_dir_spec(run_rs_config, xdg_config_home, home) matches Err(e) ==> e
            == RunError::ConfigurationMissing,
{
}

/// Whether a path carries the supported `json` extension: it ends in
/// `.json`, and that dot does not start the file name (a bare `.json`
/// is a hidden file without an extension).
pub open spec fn ext_is_json(s: Seq<char>) -> bool {
    &&& s.len() >= 6
    &&& s[s.len() - 5] == '.'
    &&& s[s.len() - 4] == 'j'
    &&& s[s.len() - 3] == 's'
    &&& s[s.len() - 2] == 'o'
    &&& s[s.len() - 1] == 'n'
    &&& s[s.len() - 6] != '/'
}

/// Decides whether `path` carries the supported `json` extension.
pub fn has_json_extension(path: &str) -> (r: bool)
    ensures
        r == ext_is_json(path@),
{
    let n = path.unicode_len();
    if n < 6 {
        return false;
    }
    path.get_char(n - 5) == '.' && path.get_char(n - 4) == 'j' && path.get_char(n - 3) == 's'
        && path.get_char(n - 2) == 'o' && path.get_char(n - 1) == 'n' && path.get_char(n - 6) != '/'
}

/// The paths of `s` that carry the supported extension, in order.
pub open spec fn json_filter(s: Seq<Seq<char>>) -> Seq<Seq<char>> {
    s.filter(|p: Seq<char>| ext_is_json(p))
}

/// Appending one path to the input either appends it to the filtered
/// output (when it has the supported extension) or leaves the output
/// unchanged.
proof fn lemma_json_filter_push(s: Seq<Seq<char>>, x: Seq<char>)
    ensures
        ext_is_json(x) ==> json_filter(s.push(x)) == json_filter(s).push(x),
        !ext_is_json(x) ==> json_filter(s.push(x)) == json_filter(s),
{
    reveal(Seq::filter);
    assert(s.push(x).drop_last() =~= s);
    assert(s.push(x).last() == x);
}

/// Discovery filters exactly: nothing is kept without the supported
/// extension, everything offered with it is kept, nothing is invented,
/// and an empty input yields an empty output.
pub proof fn lemma_json_filter_exact(s: Seq<Seq<char>>)
    ensures
        forall|i: int|
            0 <= i < json_filter(s).len() ==> ext_is_json(#[trigger] json_filter(s)[i])
                && s.contains(json_filter(s)[i]),
        forall|i: int| 0 <= i < s.len() && ext_is_json(s[i]) ==> json_filter(s).contains(s[i]),
        s.len() == 0 ==> json_filter(s) == Seq::<Seq<char>>::empty(),
{
    reveal(Seq::filter);
    let pred = |p: Seq<char>| ext_is_json(p);
    assert forall|i: int| 0 <= i < json_filter(s).len() implies ext_is_json(
        #[trigger] json_filter(s)[i],
    ) && s.contains(json_filter(s)[i]) by {
        s.lemma_filter_pred(pred, i);
        s.lemma_filter_contains_rev(pred, json_filter(s)[i]);
    }
    assert forall|i: int| 0 <= i < s.len() && ext_is_json(s[i]) implies json_filter(s).contains(
        s[i],
    ) by {
        s.lemma_filter_contains(pred, i);
    }
}

/// Keeps exactly the given paths that carry the supported extension,
/// in their given order.
pub fn json_files(paths: Vec<String>) -> (r: Vec<String>)
    ensures
        r@.map_values(|s: String| s@) == json_filter(paths@.map_values(|s: String| s@)),
{
    let ghost views = paths@.map_values(|s: String| s@);
    let mut r: Vec<String> = Vec::new();
    let mut i: usize = 0;
    while i < paths.len()
        invariant
            i <= paths.len(),
            views == paths@.map_values(|s: String| s@),
            r@.map_values(|s: String| s@) == json_filter(views.subrange(0, i as int)),
        decreases paths.len() - i,
    {
        let ghost prefix = views.subrange(0, i as int);
        if has_json_extension(paths[i].as_str()) {
            r.push(paths[i].clone());
        }
        proof {
            assert(views.subrange(0, i + 1 as int) =~= prefix.push(views[i as int]));
            lemma_json_filter_push(prefix, views[i as int]);
            if ext_is_json(views[i as int]) {
                assert(r@.map_values(|s: String| s@) =~= json_filter(prefix).push(views[i as int]));
            }
        }
        i = i + 1;
    }
    proof {
        assert(views.subrange(0, paths.len() as int) =~= views);
    }
    r
}

/// Walks the configuration directory and returns every path below it
/// that carries a supported extension (currently `json`), at any
/// depth.  Unreadable entries are skipped, never failed on, so the
/// walk always returns the readable part of the tree.
pub fn gather_task_files(dir: &String) -> (r: Vec<String>)
    ensures
        forall|i: int|
            0 <= i < r@.len() ==> ext_is_json(#[trigger] r@[i]@) && dir@.is_prefix_of(r@[i]@)
                && r@[i]@.len() > dir@.len(),
{
    let paths = crate::walk::walk_paths(dir);
    let ghost views = paths@.map_values(|s: String| s@);
    let r = json_files(paths);
    proof {
        lemma_json_filter_exact(views);
        assert forall|i: int| 0 <= i < r@.len() implies ext_is_json(#[trigger] r@[i]@)
            && dir@.is_prefix_of(r@[i]@) && r@[i]@.len() > dir@.len() by {
            assert(r@[i]@ == r@.map_values(|s: String| s@)[i]);
            let p = json_filter(views)[i];
            assert(views.contains(p));
            let j = choose|j: int| 0 <= j < views.len() && views[j] == p;
            assert(paths@[j]@ == p);
        }
    }
    r
}

/// One direct child of a directory: its base name and whether it is
/// itself a directory.
#[derive(Debug, Clone)]
pub struct FsEntry {
    pub name: String,
    pub is_dir: bool,
}

/// Whether some entry carries the given name.
pub open spec fn has_entry_named(s: Seq<FsEntry>, name: Seq<char>) -> bool {
    exists|i: int| 0 <= i < s.len() && s[i].name@ == name
}

/// Whether some directory entry carries the given name.
pub open spec fn has_dir_named(s: Seq<FsEntry>, name: Seq<char>) -> bool {
    exists|i: int| 0 <= i < s.len() && s[i].name@ == name && s[i].is_dir
}

/// What a scan of a directory's children finds, in precedence order:
/// a direct `tasks.json` wins over a `.vscode` directory, which wins
/// over a `.vscode` entry of any other kind.
#[derive(Debug, Clone, Copy, PartialEq, Eq, Structural)]
pub enum Scan {
    /// An entry named `tasks.json` is present.
    TasksJson,
    /// No `tasks.json`, but a directory named `.vscode` is present.
    VscodeDir,
    /// No `tasks.json` and no `.vscode` directory, but some other kind
    /// of entry named `.vscode` is present.
    VscodeConflict,
    /// None of the sought entries is present.
    Nothing,
}

/// The outcome of scanning the given children.
pub open spec fn scan_spec(s: Seq<FsEntry>) -> Scan {
    if has_entry_named(s, "tasks.json"@) {
        Scan::TasksJson
    } else if has_dir_named(s, ".vscode"@) {
        Scan::VscodeDir
    } else if has_entry_named(s, ".vscode"@) {
        Scan::VscodeConflict
    } else {
        Scan::Nothing
    }
}

/// Scans a directory's children for a task file or a `.vscode`
/// directory, with the documented precedence.
pub fn scan_entries(entries: &Vec<FsEntry>) -> (s: Scan)
    ensures
        s == scan_spec(entries@),
{
    let tasks_name: String = "tasks.json".to_owned();
    let vscode_name: String = ".vscode".to_owned();
    let mut vscode_dir = false;
    let mut vscode_other = false;
    let mut i: usize = 0;
    while i < entries.len()
        invariant
            i <= entries.len(),
            tasks_name@ == "tasks.json"@,
            vscode_name@ == ".vscode"@,
            forall|j: int| 0 <= j < i ==> (#[trigger] entries@[j].name)@ != "tasks.json"@,
            vscode_dir <==> has_dir_named(entries@.subrange(0, i as int), ".vscode"@),
            vscode_other <==> exists|j: int|
                0 <= j < i && (#[trigger] entries@[j].name)@ == ".vscode"@ && !entries@[j].is_dir,
        decreases entries.len() - i,
    {
        let entry = &entries[i];
        if entry.name == tasks_name {
            assert(has_entry_named(entries@, "tasks.json"@));
            return Scan::TasksJson;
        }
        if entry.name == vscode_name {
            if entry.is_dir {
                vscode_dir = true;
            } else {
                vscode_other = true;
            }
        }
        proof {
            let sub = entries@.subrange(0, i + 1 as int);
            assert(sub =~= entries@.subrange(0, i as int).push(entries@[i as int]));
            assert(sub[i as int] == entries@[i as int]);
        }
        i = i + 1;
    }
    proof {
        assert(entries@.subrange(0, entries@.len() as int) =~= entries@);
        assert(!has_entry_named(entries@, "tasks.json"@));
        if vscode_other {
            assert(has_entry_named(entries@, ".vscode"@));
        }
    }
    if vscode_dir {
        Scan::VscodeDir
    } else if vscode_other {
        Scan::VscodeConflict
    } else {
        Scan::Nothing
    }
}

/// Whether one of the given entries carries the given name.
pub fn contains_entry_named(entries: &Vec<FsEntry>, name: &String) -> (r: bool)
    ensures
        r == has_entry_named(entries@, name@),
{
    let mut i: usize = 0;
    while i < entries.len()
        invariant
            i <= entries.len(),
            forall|j: int| 0 <= j < i ==> (#[trigger] entries@[j].name)@ != name@,
        decreases entries.len() - i,
    {
        if entries[i].name == *name {
            assert(has_entry_named(entries@, name@));
            return true;
        }
        i = i + 1;
    }
    false
}

/// Locates the single most relevant task file of a directory, given
/// its direct children and the direct children of its `.vscode`
/// subdirectory (consulted only when that subdirectory is the find).
/// A direct `tasks.json` wins unconditionally; otherwise a `.vscode`
/// directory is searched one level deep for `tasks.json`; a `.vscode`
/// entry of any other kind is a configuration conflict; and a
/// directory with neither is reported as not found.
pub fn locate_task_file(
    dir: &String,
    entries: &Vec<FsEntry>,
    vscode_entries: &Vec<FsEntry>,
) -> (r: Result<String, RunError>)
    ensures
        scan_spec(entries@) is TasksJson ==> (r matches Ok(p) && p@ == dir@ + "/tasks.json"@),
        scan_spec(entries@) is VscodeDir && has_entry_named(vscode_entries@, "tasks.json"@) ==> (
        r matches Ok(p) && p@ == dir@ + "/.vscode/tasks.json"@),
        scan_spec(entries@) is VscodeDir && !has_entry_named(vscode_entries@, "tasks.json"@) ==> (
        r matches Err(e) && e matches RunError::NotFound(d) && d@ == dir@ + "/.vscode"@),
        scan_spec(entries@) is VscodeConflict ==> (r matches Err(e)
            && e matches RunError::ConfigurationConflict(d) && d@ == dir@),
        scan_spec(entries@) is Nothing ==> (r matches Err(e) && e matches RunError::NotFound(d)
            && d@ == dir@),
{
    match scan_entries(entries) {
        Scan::TasksJson => Ok(dir.clone().concat("/tasks.json")),
        Scan::VscodeDir => {
            let tasks_name: String = "tasks.json".to_owned();
            if contains_entry_named(vscode_entries, &tasks_name) {
                Ok(dir.clone().concat("/.vscode/tasks.json"))
            } else {
                Err(RunError::NotFound(dir.clone().concat("/.vscode")))
            }
        },
        Scan::VscodeConflict => Err(RunError::ConfigurationConflict(dir.clone())),
        Scan::Nothing => Err(RunError::NotFound(dir.clone())),
    }
}

/// Locates the task file of the working directory `cwd` on the file
/// system: either `cwd/tasks.json` or `cwd/.vscode/tasks.json`,
/// whatever the directory's readable children turn out to hold.
pub fn vscode_tasks_file(cwd: &String) -> (r: Result<String, RunError>)
    ensures
        r matches Ok(p) ==> (p@ == cwd@ + "/tasks.json"@ || p@ == cwd@ + "/.vscode/tasks.json"@),
        r matches Err(e) ==> ((e matches RunError::NotFound(d) ==> (d@ == cwd@ || d@ == cwd@
            + "/.vscode"@)) && (e matches RunError::ConfigurationConflict(d) ==> d@ == cwd@) && !(
        e is ConfigurationMissing) && !(e is ExtensionMissing)),
{
    let entries = crate::walk::list_dir_entries(cwd);
    let scan = scan_entries(&entries);
    let vscode_entries: Vec<FsEntry> = match scan {
        Scan::VscodeDir => crate::walk::list_dir_entries(&cwd.clone().concat("/.vscode")),
        _ => Vec::new(),
    };
    locate_task_file(cwd, &entries, &vscode_entries)
}

/// Gathers the full task-file collection for one run: every supported
/// file below the configuration directory that the three environment
/// inputs resolve to, followed by the single task file of the working
/// directory.  Any component failure aborts the whole aggregation and
/// is propagated unchanged.
pub fn task_files(
    run_rs_config: Option<String>,
    xdg_config_home: Option<String>,
    home: Option<String>,
    work_dir: &String,
) -> (r: Result<Vec<String>, RunError>)
    ensures
        r matches Err(e) && e is ConfigurationMissing <==> (run_rs_config is None
            && xdg_config_home is None && home is None),
        r is Ok ==> config_dir_spec(
            opt_view(run_rs_config),
            opt_view(xdg_config_home),
            opt_view(home),
        ) is Ok,
        r matches Ok(v) ==> ({
            let dir = config_dir_spec(
                opt_view(run_rs_config),
                opt_view(xdg_config_home),
                opt_view(home),
            )->Ok_0;
            &&& v@.len() >= 1
            &&& forall|i: int|
                0 <= i < v@.len() - 1 ==> ext_is_json(#[trigger] v@[i]@) && dir.is_prefix_of(
                    v@[i]@,
                ) && v@[i]@.len() > dir.len()
            &&& (v@[v@.len() - 1]@ == work_dir@ + "/tasks.json"@ || v@[v@.len() - 1]@ == work_dir@
                + "/.vscode/tasks.json"@)
        }),
        r matches Err(e) ==> (e is ConfigurationMissing || e is NotFound
            || e is ConfigurationConflict),
{
    let dir = match config_dir(run_rs_config, xdg_config_home, home) {
        Ok(dir) => dir,
        Err(e) => {
            return Err(e);
        },
    };
    let mut result = gather_task_files(&dir);
    let path = match vscode_tasks_file(work_dir) {
        Ok(path) => path,
        Err(e) => {
            return Err(e);
        },
    };
    result.push(path);
    Ok(result)
}

} // verus!
