//! The error type shared by the whole library.

use vstd::prelude::*;

verus! {

/// The kinds of error that the library reports.
#[derive(Debug, Clone, Copy, PartialEq, Eq, Structural)]
pub enum ErrorKind {
    /// A move named a column that the board does not have.
    InvalidColumn,
    /// A move named a column whose topmost cell is already taken.
    ColumnFull,
    /// A checksum is not an even number of hex digits, or has too few.
    InvalidChecksum,
    /// A colour has a name that is not known.
    InvalidColor,
}

/// An error of the library: its kind, which also fixes the words that
/// describe it.
#[derive(Debug, Clone, Copy, PartialEq, Eq, Structural)]
pub struct Error {
    pub kind: ErrorKind,
}

/// The words that describe an error.
pub open spec fn error_text(error: Error) -> Seq<char> {
    match error.kind {
        ErrorKind::InvalidColumn => "Invalid column"@,
        ErrorKind::ColumnFull => "Column full"@,
        ErrorKind::InvalidChecksum => "invalid_checksum"@,
        ErrorKind::InvalidColor => "Invalid color"@,
    }
}

impl Error {
    /// The error of the given kind.
    pub fn new(kind: ErrorKind) -> (error: Error)
        ensures
            error.kind == kind,
    {
        Error { kind }
    }

    /// The words that describe the error.
    pub fn message(&self) -> (text: String)
        ensures
            text@ == error_text(*self),
    {
        match self.kind {
            ErrorKind::InvalidColumn => String::from_str("Invalid column"),
            ErrorKind::ColumnFull => String::from_str("Column full"),
            ErrorKind::InvalidChecksum => String::from_str("invalid_checksum"),
            ErrorKind::InvalidColor => String::from_str("Invalid color"),
        }
    }
}

} // verus!
