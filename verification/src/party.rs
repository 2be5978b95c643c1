use vstd::prelude::*;

verus! {

/// What an address names on the ledger.
#[derive(Clone, Copy, PartialEq, Eq, Structural, Debug)]
pub enum AddressKind {
    /// An account, named by its ed25519 public key.
    Account,
    /// A contract, named by its 32-byte hash.
    Contract,
}

/// A ledger address as plain data: its kind and its 32-byte key, held as two
/// big-endian halves. Two addresses are the same exactly when all three
/// fields agree.
#[derive(Clone, Copy, PartialEq, Eq, Structural, Debug)]
pub struct AccountId {
    pub kind: AddressKind,
    pub key_hi: u128,
    pub key_lo: u128,
}

} // verus!
