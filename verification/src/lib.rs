//! A task-runner core that discovers VSCode-style `tasks.json` files.
//!
//! The library resolves a configuration directory from three layered
//! environment inputs, walks it for task files, and locates the nearest
//! task file of a working directory.  All path handling and decision
//! logic is verified; the directory traversals themselves are thin,
//! trusted wrappers around `walkdir`.

pub mod errors;
pub mod find;
pub mod parse;
pub mod parsers;
mod walk;
