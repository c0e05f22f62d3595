use vstd::prelude::*;

use std::collections::BTreeMap;

use crate::errors::RunError;
use crate::parsers::Parser;

verus! {

/// Whether a path carries an extension: its file name (the part after
/// the last `/`) holds a dot that is not the file name's first
/// character.  Read from the right, the first decisive character wins:
/// a `/` means the file name has no dot, a dot means it has one.
pub open spec fn has_extension(s: Seq<char>) -> bool
    decreases s.len(),
{
    if s.len() == 0 {
        false
    } else if s.last() == '/' {
        false
    } else if s.last() == '.' {
        s.len() >= 2 && s[s.len() - 2] != '/'
    } else {
        has_extension(s.drop_last())
    }
}

/// Decides whether `path` carries an extension.
pub fn path_has_extension(path: &str) -> (r: bool)
    ensures
        r == has_extension(path@),
{
    let n = path.unicode_len();
    proof {
        assert(path@.subrange(0, n as int) =~= path@);
    }
    let mut i: usize = n;
    while i > 0
        invariant
            i <= n,
            n == path@.len(),
            has_extension(path@) == has_extension(path@.subrange(0, i as int)),
        decreases i,
    {
        let ghost sub = path@.subrange(0, i as int);
        proof {
            assert(sub.last() == path@[i - 1]);
            assert(sub.drop_last() =~= path@.subrange(0, i - 1 as int));
        }
        let c = path.get_char(i - 1);
        if c == '/' {
            return false;
        }
        if c == '.' {
            if i >= 2 {
                proof {
                    assert(sub[i - 2 as int] == path@[i - 2]);
                }
                return path.get_char(i - 2) != '/';
            }
            return false;
        }
        i = i - 1;
    }
    false
}

/// The extensions that a row of parsers accepts, in parser order.
pub open spec fn all_extensions<P: Parser>(parsers: Seq<P>) -> Seq<Seq<char>>
    decreases parsers.len(),
{
    if parsers.len() == 0 {
        Seq::empty()
    } else {
        all_extensions(parsers.drop_last()) + parsers.last().spec_extensions()
    }
}

/// The file extensions that the given parsers accept, one row, in
/// parser order.
pub fn supported_extension<P: Parser>(parsers: &Vec<P>) -> (r: Vec<String>)
    ensures
        r@.map_values(|s: String| s@) == all_extensions(parsers@),
{
    let mut r: Vec<String> = Vec::new();
    let mut i: usize = 0;
    while i < parsers.len()
        invariant
            i <= parsers.len(),
            r@.map_values(|s: String| s@) == all_extensions(parsers@.subrange(0, i as int)),
        decreases parsers.len() - i,
    {
        let ghost old_r = r@;
        let mut chunk = parsers[i].supported_extension();
        let ghost chunk_view = chunk@;
        r.append(&mut chunk);
        proof {
            let f = |s: String| s@;
            assert(r@.map_values(f) =~= old_r.map_values(f) + chunk_view.map_values(f));
            let sub = parsers@.subrange(0, i + 1 as int);
            assert(sub.drop_last() =~= parsers@.subrange(0, i as int));
            assert(sub.last() == parsers@[i as int]);
        }
        i = i + 1;
    }
    proof {
        assert(parsers@.subrange(0, parsers@.len() as int) =~= parsers@);
    }
    r
}

/// Parses every gathered task file with the given parsers and maps
/// each file to the tasks it defines.  Parsing proper is not realized
/// yet, so the map comes back empty; but a file whose path carries no
/// extension is still rejected, the first such path deciding the
/// error.
#[allow(unused_variables)]
pub fn tasks<P: Parser>(task_files: Vec<String>, parsers: &Vec<P>) -> (r: Result<
    BTreeMap<String, Vec<String>>,
    RunError,
>)
    ensures
        r is Ok <==> (forall|i: int|
            0 <= i < task_files@.len() ==> has_extension(#[trigger] task_files@[i]@)),
        r matches Ok(m) ==> m@ == Map::<String, Vec<String>>::empty(),
        r matches Err(e) ==> (e matches RunError::ExtensionMissing(f) && exists|k: int|
            0 <= k < task_files@.len() && !has_extension(task_files@[k]@) && f@ == (
            #[trigger] task_files@[k])@ && (forall|j: int|
                0 <= j < k ==> has_extension(#[trigger] task_files@[j]@))),
{
    let result: BTreeMap<String, Vec<String>> = BTreeMap::new();
    let mut i: usize = 0;
    while i < task_files.len()
        invariant
            i <= task_files.len(),
            forall|j: int| 0 <= j < i ==> has_extension(#[trigger] task_files@[j]@),
        decreases task_files.len() - i,
    {
        if !path_has_extension(task_files[i].as_str()) {
            return Err(RunError::ExtensionMissing(task_files[i].clone()));
        }
        i = i + 1;
    }
    Ok(result)
}

} // verus!
