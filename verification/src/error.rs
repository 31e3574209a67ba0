//! Errors a decoder can report for one line.

use vstd::prelude::*;

verus! {

/// Why one line failed to decode.
#[derive(Debug, Clone, Copy, PartialEq, Eq, Structural)]
pub enum DecodeErrorKind {
    /// The line is not syntactically valid JSON.
    MalformedJson,
    /// Valid JSON, but a required field is missing or a field has an
    /// unexpected shape.
    Schema,
    /// The parent reference is missing or explicitly null.
    ParentAbsent,
    /// The parent reference string has no underscore, a marker shorter than
    /// two characters, or a non-digit where its digit belongs.
    ParentMalformed,
    /// The timestamp field is present but in none of the accepted encodings.
    Timestamp,
}

/// A decode failure, carrying the offending line's raw text as context.
#[derive(Debug, Clone)]
pub struct DecodeError {
    pub kind: DecodeErrorKind,
    pub line: String,
}

} // verus!
