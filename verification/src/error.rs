//! The errors that a tray operation can return.

use vstd::prelude::*;
use vstd::string::StringExecFns;

verus! {

/// Why a tray operation failed.
#[derive(Debug)]
pub enum SystrayError {
    /// The operating system refused a request; the text is its diagnostic.
    OsError(String),
    /// The platform has no implementation of what was asked for.
    NotImplementedError,
    /// A failure that the platform layer could not classify.
    UnknownError,
}

impl Clone for SystrayError {
    fn clone(&self) -> (copy: Self)
        ensures
            copy == *self,
    {
        match self {
            SystrayError::OsError(detail) => SystrayError::OsError(detail.clone()),
            SystrayError::NotImplementedError => SystrayError::NotImplementedError,
            SystrayError::UnknownError => SystrayError::UnknownError,
        }
    }
}

impl SystrayError {
    /// The text that describes the error to a person.
    pub open spec fn text(self) -> Seq<char> {
        match self {
            SystrayError::OsError(detail) => "OsError: "@ + detail@,
            SystrayError::NotImplementedError => "Functionality is not implemented yet"@,
            SystrayError::UnknownError => "Unknown error occurrred"@,
        }
    }

    /// Renders the error as a line of text.
    pub fn to_string(&self) -> (line: String)
        ensures
            line@ == self.text(),
    {
        match self {
            SystrayError::OsError(detail) => String::from_str("OsError: ").concat(detail.as_str()),
            SystrayError::NotImplementedError => String::from_str(
                "Functionality is not implemented yet",
            ),
            SystrayError::UnknownError => String::from_str("Unknown error occurrred"),
        }
    }
}

} // verus!
