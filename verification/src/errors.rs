//! Error codes surfaced by the query path and the decrypt transaction.

use vstd::prelude::*;

verus! {

/// Coded rejection of a query or of the decrypt transaction. Any failure
/// aborts the whole operation with zero writes.
#[derive(Clone, Copy, Debug, PartialEq, Eq, Structural)]
pub enum Error {
    /// The execution context carries no caller identity or no transaction hash.
    WrongTxInitiator,
    /// The caller's public key is not a configured operator key.
    AuthorNotAuthorized,
    /// No election with the given identifier exists.
    VotingDoesNotExist,
    /// The election phase forbids this operation.
    ForbiddenForThisVotingState,
    /// No ballot with the given index exists in this election.
    BallotDoesNotExist,
    /// The election's private decryption key has not been published.
    DecryptionKeyIsNotPublished,
    /// The storage-level decrypt step failed.
    BallotCannotBeDecrypted,
}

/// Failure of the storage-level atomic decrypt-and-update.
#[derive(Clone, Copy, Debug, PartialEq, Eq, Structural)]
pub enum DecryptError {
    /// The ballot index does not exist in this election.
    BallotAbsent,
    /// The ballot already carries a terminal status.
    AlreadyDecrypted,
}

} // verus!
