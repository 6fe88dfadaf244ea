//! The closed set of failure kinds the library reports. Every failure
//! carries a human-readable message; callers branch on the kind.

use vstd::prelude::*;

verus! {

/// A failure of a controller operation or of a conversion.
///
/// - `Parse`: malformed time text, or a stored time pair out of range.
/// - `Validation`: a numeric input outside its defined range.
/// - `UnrecognizedMode`: a stored schedule mode outside `{0, 1, 2}`.
/// - `Read`: the backing store could not be read.
/// - `Write`: the backing store could not be written.
#[derive(Debug, Clone, PartialEq, Eq)]
pub enum Error {
    Parse(String),
    Validation(String),
    UnrecognizedMode(String),
    Read(String),
    Write(String),
}

impl Error {
    /// The message carried by the error, for reporting.
    pub fn message(&self) -> (r: &str)
        ensures
            r@ == self.message_spec(),
    {
        match self {
            Error::Parse(m) => m.as_str(),
            Error::Validation(m) => m.as_str(),
            Error::UnrecognizedMode(m) => m.as_str(),
            Error::Read(m) => m.as_str(),
            Error::Write(m) => m.as_str(),
        }
    }

    /// The message as a sequence of characters.
    pub open spec fn message_spec(&self) -> Seq<char> {
        match self {
            Error::Parse(m) => m@,
            Error::Validation(m) => m@,
            Error::UnrecognizedMode(m) => m@,
            Error::Read(m) => m@,
            Error::Write(m) => m@,
        }
    }
}

} // verus!
