//! Errors of the backend.

use vstd::prelude::*;

verus! {

/// The kinds of clearing a user interface may ask for.
#[derive(Clone, Copy, PartialEq, Eq, Structural, Debug)]
pub enum ClearType {
    All,
    AfterCursor,
    BeforeCursor,
    CurrentLine,
    UntilNewLine,
}

/// The name of a clear kind, as written in its declaration.
pub open spec fn clear_type_name(kind: ClearType) -> Seq<char> {
    match kind {
        ClearType::All => "All"@,
        ClearType::AfterCursor => "AfterCursor"@,
        ClearType::BeforeCursor => "BeforeCursor"@,
        ClearType::CurrentLine => "CurrentLine"@,
        ClearType::UntilNewLine => "UntilNewLine"@,
    }
}

impl ClearType {
    /// The name of the kind, for diagnostics.
    pub fn name(&self) -> (s: String)
        ensures
            s@ == clear_type_name(*self),
    {
        match self {
            ClearType::All => "All".to_owned(),
            ClearType::AfterCursor => "AfterCursor".to_owned(),
            ClearType::BeforeCursor => "BeforeCursor".to_owned(),
            ClearType::CurrentLine => "CurrentLine".to_owned(),
            ClearType::UntilNewLine => "UntilNewLine".to_owned(),
        }
    }
}

/// Represents a backend error.
#[derive(Debug)]
pub enum Error {
    /// Drawing to the display failed.
    DrawError,
    /// The requested clear kind is not supported; carries its name.
    ClearTypeUnsupported(String),
}

} // verus!
