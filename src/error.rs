//! Why a transfer was refused or failed, and the status text shown for it.

use vstd::prelude::*;
use vstd::string::*;

verus! {

/// Why a transfer did not happen.
#[derive(Debug, Clone, PartialEq, Eq)]
pub enum TransferError {
    /// The source file could not be looked up.
    SourceNotFound,
    /// The destination folder could not be looked up.
    DestinationNotFound,
    /// The session id has fewer than two characters.
    InvalidSession,
    /// The mode is empty.
    InvalidMode,
    /// The name is empty.
    InvalidName,
    /// The description is empty.
    InvalidDescription,
    /// The copy itself failed; holds the text of the underlying error.
    CopyFailed(String),
}

/// The prefix of the status text of a failed copy, before the error detail.
pub open spec fn copy_failed_prefix() -> Seq<char> {
    seq!['F', 'a', 'i', 'l', 'e', 'd', ' ', 't', 'o', ' ', 'c', 'o', 'p', 'y', ' ', 'f', 'i', 'l', 'e', ':', ' ']
}

/// The status text shown for each error.
pub open spec fn error_message(e: TransferError) -> Seq<char> {
    match e {
        TransferError::SourceNotFound => "File does not exist"@,
        TransferError::DestinationNotFound => "Destination does not exist"@,
        TransferError::InvalidSession => "Session ID is not valid"@,
        TransferError::InvalidMode => "Mode is not valid"@,
        TransferError::InvalidName => "Name is not valid"@,
        TransferError::InvalidDescription => "Description is not valid"@,
        TransferError::CopyFailed(detail) => copy_failed_prefix() + detail@,
    }
}

impl TransferError {
    /// The status text shown to the operator for this error.
    pub fn message(&self) -> (r: String)
        ensures
            r@ == error_message(*self),
    {
        match self {
            TransferError::SourceNotFound => String::from_str("File does not exist"),
            TransferError::DestinationNotFound => String::from_str("Destination does not exist"),
            TransferError::InvalidSession => String::from_str("Session ID is not valid"),
            TransferError::InvalidMode => String::from_str("Mode is not valid"),
            TransferError::InvalidName => String::from_str("Name is not valid"),
            TransferError::InvalidDescription => String::from_str("Description is not valid"),
            TransferError::CopyFailed(detail) => {
                let mut r = String::from_str("Failed to copy file: ");
                r.append(detail.as_str());
                proof {
                    reveal_strlit("Failed to copy file: ");
                }
                assert(r@ =~= copy_failed_prefix() + detail@);
                r
            },
        }
    }
}

} // verus!
