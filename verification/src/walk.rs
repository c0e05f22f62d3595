use vstd::prelude::*;

verus! {

/// Relies on `walkdir::WalkDir`: with `min_depth(1)` the iterator
/// yields only entries strictly below the given root, and each entry's
/// path is the given root joined with the path down to the entry, so
/// the root's text is a proper prefix of every yielded path.  Entries
/// that cannot be read, and paths that are not valid text, are skipped.
#[verifier::external_body]
pub(crate) fn walk_paths(dir: &String) -> (r: Vec<String>)
    ensures
        forall|i: int|
            0 <= i < r@.len() ==> dir@.is_prefix_of(#[trigger] r@[i]@) && r@[i]@.len() > dir@.len(),
{
    let mut r = Vec::new();
    for entry in walkdir::WalkDir::new(dir.as_str()).min_depth(1) {
        if let Ok(e) = entry {
            if let Some(p) = e.path().to_str() {
                r.push(p.to_string());
            }
        }
    }
    r
}

/// Relies on `walkdir::WalkDir` with `min_depth(1).max_depth(1)`: the
/// iterator yields exactly the direct children of the given root;
/// `DirEntry::file_name` is an entry's base name and
/// `DirEntry::file_type().is_dir()` says whether it is a directory.
/// Entries that cannot be read, and names that are not valid text, are
/// skipped.  Nothing more is assumed: callers decide from whatever
/// children come back.
#[verifier::external_body]
pub(crate) fn list_dir_entries(dir: &String) -> (r: Vec<crate::find::FsEntry>)
{
    let mut r = Vec::new();
    for entry in walkdir::WalkDir::new(dir.as_str()).min_depth(1).max_depth(1) {
        if let Ok(e) = entry {
            if let Some(name) = e.file_name().to_str() {
                r.push(crate::find::FsEntry { name: name.to_string(), is_dir: e.file_type().is_dir() });
            }
        }
    }
    r
}

} // verus!
