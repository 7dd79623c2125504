//! Source files.

use vstd::prelude::*;

verus! {

/// Identifies a source file.
#[derive(Debug, PartialEq, Eq, Structural, Hash, PartialOrd, Ord, Clone, Copy)]
pub struct SourceFileId(pub u32);

/// A source file: its name (a path) and its text.
#[derive(Debug, PartialEq, Eq, Hash, Clone)]
pub struct SourceFile {
    pub name: String,
    pub content: String,
}

} // verus!
