use vstd::prelude::*;

verus! {

/// Every way an operation of the engine can fail. Each is terminal for the
/// operation that raised it; nothing is committed on failure.
#[derive(Debug, Clone, Copy, PartialEq, Eq, Structural)]
pub enum BouncerError {
    InvalidPolicy,
    InvalidStorageKind,
    InvalidStatus,
    Unauthorized,
    Frozen,
    EntryPdaMismatch,
    EntryAccountInvalidOwner,
    EntryDataMismatch,
    NotAllowed,
    ProofNotSupported,
    InvalidMerkleConfig,
    InvalidProofLength,
    InvalidMerkleProof,
    /// The slot at a derived address already holds a record.
    AccountInUse,
    /// The slot named for an operation holds no record.
    AccountNotInitialized,
    /// A record's address is not the one its seeds and stored nonce derive.
    SeedsMismatch,
}

} // verus!
