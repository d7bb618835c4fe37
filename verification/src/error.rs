//! Why a scan is refused.

use vstd::prelude::*;

verus! {

/// The ways in which a scan can fail once its texts have been read.
#[derive(Debug, Clone, Copy, PartialEq, Eq, Structural)]
pub enum ScanError {
    /// The path to scan is a file, where a directory is asked for.
    NotADirectory,
    /// The search engine refused one of the expressions.
    Pattern,
}

impl ScanError {
    /// The text that says the error to a reader.
    pub open spec fn text(self) -> Seq<char> {
        match self {
            ScanError::NotADirectory => "Path must be a directory!"@,
            ScanError::Pattern => "Failed to compile regex"@,
        }
    }

    /// The text that says the error to a reader.
    pub fn message(&self) -> (text: &'static str)
        ensures
            text@ == self.text(),
    {
        match self {
            ScanError::NotADirectory => "Path must be a directory!",
            ScanError::Pattern => "Failed to compile regex",
        }
    }
}

} // verus!
