//! The ways in which a transfer fails.

use vstd::prelude::*;

verus! {

/// Why a request, or one reference update of a push, was given up.
#[derive(Clone, Copy, Debug, PartialEq, Eq, Structural)]
pub enum TransferError {
    /// What the client sent cannot be read: a line that is no text, an
    /// object id that is no hexadecimal, a reference name outside the
    /// grammar, a commit that cannot be taken apart.
    MalformedInput,
    /// An object id is absent from the index or store that was asked.
    ObjectNotFound,
    /// The object named as a reference's new target is no commit.
    UnexpectedPayloadKind,
    /// The reference did not hold the value that the update required.
    TransactionConflict,
    /// Reading or writing the index, the pack or an object store failed.
    StorageFailure,
}

/// The status code under which `error` is shown to the client.
pub open spec fn status_of(error: TransferError) -> u16 {
    match error {
        TransferError::MalformedInput => 400,
        TransferError::ObjectNotFound => 404,
        TransferError::UnexpectedPayloadKind => 400,
        TransferError::TransactionConflict => 500,
        TransferError::StorageFailure => 500,
    }
}

/// Whether `error` ends the whole request: what cannot be read and what
/// cannot be stored does; the other failures end one reference update and
/// leave the updates beside it alone.
pub open spec fn ends_request(error: TransferError) -> bool {
    error == TransferError::MalformedInput || error == TransferError::StorageFailure
}

impl TransferError {
    /// Whether the error ends the whole request, not only one reference
    /// update.
    pub fn ends_request(&self) -> (ends: bool)
        ensures
            ends == ends_request(*self),
    {
        match self {
            TransferError::MalformedInput => true,
            TransferError::StorageFailure => true,
            _ => false,
        }
    }

    /// The status code under which the error is shown to the client.
    pub fn status(&self) -> (code: u16)
        ensures
            code == status_of(*self),
    {
        match self {
            TransferError::MalformedInput => 400,
            TransferError::ObjectNotFound => 404,
            TransferError::UnexpectedPayloadKind => 400,
            TransferError::TransactionConflict => 500,
            TransferError::StorageFailure => 500,
        }
    }
}

} // verus!
