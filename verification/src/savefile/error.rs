//! What decoding can report.

use vstd::prelude::*;

verus! {

/// Why a buffer was not decoded. No partly decoded value is ever returned.
#[derive(Copy, Clone, Debug, PartialEq, Eq, Structural)]
pub enum SaveError {
    /// Not a recognized save file: the signature is wrong, or the buffer
    /// is shorter than a header and six slot records.
    Format,
    /// The buffer ends before the region that was asked for.
    TruncatedInput,
}

/// The words in which an error is told to the user.
pub open spec fn error_message(error: SaveError) -> Seq<char> {
    match error {
        SaveError::Format => "not a recognized save file"@,
        SaveError::TruncatedInput => "save data ends before the record"@,
    }
}

impl SaveError {
    /// Tells the error in words.
    pub fn message(&self) -> (text: String)
        ensures
            text@ == error_message(*self),
    {
        match self {
            SaveError::Format => "not a recognized save file".to_owned(),
            SaveError::TruncatedInput => "save data ends before the record".to_owned(),
        }
    }
}

} // verus!
