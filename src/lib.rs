//! Regex-driven search and rename of directory entries.
//!
//! The library decides; the program around it walks the directory tree,
//! reports and renames.

pub mod pattern;
pub mod pipeline;
pub mod syntax;
pub mod walk;

use vstd::prelude::*;

verus! {

/// What one run is asked to do.
#[derive(Clone, Debug)]
pub struct Args {
    /// The pattern that entry names are searched with.
    pub regex: String,
    /// The template that a matching name is rewritten with; without one,
    /// matches are only reported.
    pub replacement: Option<String>,
    /// Walk the whole tree, not only the current directory's entries.
    pub recurse: bool,
    /// Report the new names, but rename nothing.
    pub preview: bool,
}

} // verus!
