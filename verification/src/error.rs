//! The two ways a load can fail.

use vstd::prelude::*;

verus! {

/// Why a load was abandoned. Either kind aborts the whole load; nothing
/// partial is returned.
#[derive(Debug)]
pub enum FbxError {
    /// The buffer is empty or too short to hold a file header.
    InvalidInput(String),
    /// The decoder rejected the bytes; the text is its diagnostic.
    DecodeError(String),
}

impl FbxError {
    /// The text carried by the error.
    pub open spec fn text(self) -> Seq<char> {
        match self {
            FbxError::InvalidInput(s) => s@,
            FbxError::DecodeError(s) => s@,
        }
    }

    /// A copy of the text carried by the error.
    pub fn message(&self) -> (r: String)
        ensures
            r@ == self.text(),
    {
        match self {
            FbxError::InvalidInput(s) => s.clone(),
            FbxError::DecodeError(s) => s.clone(),
        }
    }
}

/// True of a result that is the invalid-input error with the given text.
pub open spec fn is_invalid_input<T>(r: Result<T, FbxError>, text: Seq<char>) -> bool {
    r matches Err(FbxError::InvalidInput(t)) && t@ == text
}

/// True of a result that is the decode error with the given text.
pub open spec fn is_decode_error<T>(r: Result<T, FbxError>, text: Seq<char>) -> bool {
    r matches Err(FbxError::DecodeError(t)) && t@ == text
}

} // verus!
