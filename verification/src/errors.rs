use vstd::prelude::*;

verus! {

use vstd::string::StringExecFns;

/// The failures that task-file discovery can report.
#[derive(Debug, Clone)]
pub enum RunError {
    /// None of the three configuration environment inputs was present.
    ConfigurationMissing,
    /// An entry that was expected to be a directory (`.vscode`) is not
    /// one; holds the directory that was searched.
    ConfigurationConflict(String),
    /// Neither `tasks.json` nor `.vscode/tasks.json` was found; holds
    /// the directory that was searched.
    NotFound(String),
    /// A task file path carries no extension; holds that path.
    ExtensionMissing(String),
}

impl RunError {
    /// The human-readable description of the error.
    pub open spec fn spec_message(self) -> Seq<char> {
        match self {
            RunError::ConfigurationMissing => {
                "'RUN_RS_CONFIG', 'XDG_CONFIG_HOME' and 'HOME' environment variable not set"@
            },
            RunError::ConfigurationConflict(dir) => {
                "Expected `.vscode` in `"@ + dir@ + "` to be a directory"@
            },
            RunError::NotFound(dir) => {
                "Could not find `tasks.json` or `.vscode/tasks.json` in `"@ + dir@ + "`"@
            },
            RunError::ExtensionMissing(file) => {
                "Could not determine extension of `"@ + file@ + "`"@
            },
        }
    }

    /// Renders the error for display by a calling layer.
    pub fn message(&self) -> (r: String)
        ensures
            r@ == self.spec_message(),
    {
        match self {
            RunError::ConfigurationMissing => {
                "'RUN_RS_CONFIG', 'XDG_CONFIG_HOME' and 'HOME' environment variable not set".to_owned()
            },
            RunError::ConfigurationConflict(dir) => {
                "Expected `.vscode` in `".to_owned().concat(dir.as_str()).concat(
                    "` to be a directory",
                )
            },
            RunError::NotFound(dir) => {
                "Could not find `tasks.json` or `.vscode/tasks.json` in `".to_owned().concat(
                    dir.as_str(),
                ).concat("`")
            },
            RunError::ExtensionMissing(file) => {
                "Could not determine extension of `".to_owned().concat(file.as_str()).concat("`")
            },
        }
    }
}

} // verus!
