//! Handles by which the front-end names a definition and a place in the source.

use vstd::prelude::*;

verus! {

/// The identity of one definition (a function, a trait, an impl): the number
/// of its crate and its index in that crate. Two occurrences of a definition
/// carry equal identifiers, so the identifier is the key by which findings
/// are told apart.
#[derive(Clone, Copy, Debug, PartialEq, Eq, Structural, Hash)]
pub struct DefinitionId {
    pub krate: u32,
    pub index: u32,
}

impl DefinitionId {
    pub fn new(krate: u32, index: u32) -> (id: Self)
        ensures
            id.krate == krate,
            id.index == index,
    {
        DefinitionId { krate, index }
    }
}

/// A place in the source: the file and the line on which a construct starts.
#[derive(Debug)]
pub struct SourceSpan {
    pub file: String,
    pub line: u32,
}

impl SourceSpan {
    pub fn new(file: String, line: u32) -> (span: Self)
        ensures
            span.file == file,
            span.line == line,
    {
        SourceSpan { file, line }
    }
}

impl Clone for SourceSpan {
    fn clone(&self) -> (copy: Self)
        ensures
            copy == *self,
    {
        SourceSpan { file: self.file.clone(), line: self.line }
    }
}

} // verus!
