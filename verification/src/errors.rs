use vstd::prelude::*;

verus! {

/// Every way an operation of the marketplace can fail.  A failure aborts
/// its whole operation: the caller sees the error and no partial state
/// survives.
#[derive(Clone, Copy, Debug, PartialEq, Eq, Structural)]
pub enum MarketplaceErrors {
    /// Creation was attempted at an address that already holds a record.
    AddressCollision,
    /// The buyer's balance does not strictly exceed the listed price.
    InsufficientFunds,
    /// A supplied record's recorded derivation proof does not match
    /// recomputation from its claimed seeds, or no record exists at the
    /// supplied address.
    AddressProofMismatch,
    /// The signing authority presented for an asset-registry operation does
    /// not match the registered delegate, or the asset is permanently
    /// locked against any further transfer.
    DelegationDenied,
    /// The native value transfer cannot be performed: the credited balance
    /// would overflow the ledger's 64-bit amount.
    ValueTransferFailure,
    /// The host's derivation primitive found no valid proof byte for the
    /// given seeds (statistically improbable, but the primitive allows it).
    AddressDerivationFailure,
}

} // verus!
