use vstd::prelude::*;

verus! {

/// Every way an operation of this library can fail.
#[derive(Debug, Clone, Copy, PartialEq, Eq, Structural)]
pub enum BubblegumError {
    /// An address string is not base58, or does not decode to 32 bytes.
    InvalidAddress,
    /// Signing key bytes have the wrong length or structure.
    InvalidKeyMaterial,
    /// The metadata texts are too long to frame in memory.
    MetadataTooLarge,
    /// The freshly drawn tree identity came out equal to the payer's.
    TreeKeyCollision,
    /// Fetching the freshness token, submitting or confirming failed in transport.
    NetworkError,
    /// No confirmation arrived within the caller's bound.
    Timeout,
    /// The network evaluated the transaction and refused it.
    TransactionRejected,
}

} // verus!
