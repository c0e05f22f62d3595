use vstd::prelude::*;

use crate::errors::RunError;

verus! {

/// A task-file parser for one file format.  The single current
/// implementation understands the VSCode `tasks.json` format; the
/// trait is the seam through which further formats plug in.
pub trait Parser {
    /// The file extensions this parser accepts.
    spec fn spec_extensions(&self) -> Seq<Seq<char>>;

    /// The file extensions this parser accepts.
    fn supported_extension(&self) -> (r: Vec<String>)
        ensures
            r@.map_values(|s: String| s@) == self.spec_extensions(),
    ;

    /// Parses one task file's contents into the names of the tasks it
    /// defines.
    fn parse(&self, file: String) -> (r: Result<Vec<String>, RunError>);
}

/// The parser for VSCode-style `tasks.json` files.  Parsing proper is
/// not realized yet: every file yields an empty task list.
pub struct VSCode;

impl Parser for VSCode {
    open spec fn spec_extensions(&self) -> Seq<Seq<char>> {
        seq!["json"@]
    }

    fn supported_extension(&self) -> (r: Vec<String>) {
        let mut r: Vec<String> = Vec::new();
        r.push("json".to_owned());
        proof {
            assert(r@.map_values(|s: String| s@) =~= seq!["json"@]);
        }
        r
    }

    fn parse(&self, file: String) -> (r: Result<Vec<String>, RunError>) {
        Ok(Vec::new())
    }
}

} // verus!
