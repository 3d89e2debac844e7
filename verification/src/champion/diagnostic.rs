//! What a structural parse error can say about its cause.

use vstd::prelude::*;

verus! {

/// The part of a champion record that a reader found at fault.
#[derive(Debug, Clone, Copy, PartialEq, Eq, Structural)]
pub enum RecordPart {
    /// The record itself is no JSON object.
    Whole,
    Id,
    Key,
    Name,
    Title,
    Blurb,
    Info,
    Tags,
    Partype,
    Stats,
}

/// The detail that a structural parse error carries, where there is any.
#[derive(Debug, Clone, Copy, PartialEq, Eq, Structural)]
pub enum ParseDiagnostic {
    /// The text is no JSON document; the place is where its reader gave up.
    Syntax { line: usize, column: usize },
    /// A champion record lacks a member, or the member has the wrong form.
    Record(RecordPart),
}

} // verus!
