use vstd::prelude::*;

verus! {

/// An error reported by the token-transfer primitive, carried through verbatim.
#[derive(Clone, Copy, Debug, PartialEq, Eq, Structural)]
pub struct TransferError {
    pub code: u64,
}

/// Every failure that an operation of this library reports.
#[derive(Clone, Copy, Debug, PartialEq, Eq, Structural)]
pub enum VaultError {
    /// No bump in `0..=255` gives an off-curve address for the seeds.
    NoValidNonceFound,
    /// A bump was cached already for the role; the cache is write-once.
    BumpAlreadyCached,
    /// A counter would leave the range of `u64`.
    ArithmeticOverflow,
    /// The caller proof does not show that the user signed.
    MissingSignature,
    /// An account supplied for a derived role is not that role's address.
    AddressMismatch,
    /// The user does not own the token account supplied as theirs.
    OwnerMismatch,
    /// The transfer primitive rejected the movement.
    Transfer(TransferError),
}

} // verus!
