//! Signed legacy transactions, and the chain id that their signature carries.

use vstd::prelude::*;

use crate::primitives::{Address, B256, U256};

verus! {

/// Where a transaction goes.
#[derive(Clone, Copy, Debug, PartialEq, Eq, Structural)]
pub enum TransactionKind {
    /// A message call to an address.
    Call(Address),
    /// A contract creation.
    Create,
}

/// An ECDSA signature with its recovery value `v`.
#[derive(Clone, Copy, Debug, PartialEq, Eq, Structural)]
pub struct Signature {
    pub r: B256,
    pub s: B256,
    pub v: u64,
}

/// A signed transaction in the format from before typed transactions.
#[derive(Clone, Debug)]
pub struct LegacySignedTransaction {
    pub nonce: u64,
    pub gas_price: U256,
    pub gas_limit: u64,
    pub kind: TransactionKind,
    pub value: U256,
    pub input: Vec<u8>,
    pub signature: Signature,
}

/// The chain id that a recovery value encodes under replay protection
/// (`v = 2 * chain_id + 35` or `+ 36`); none for `v` of 36 or less.
pub open spec fn chain_id_of(v: u64) -> Option<u64> {
    if v > 36 {
        Some(((v - 35) / 2) as u64)
    } else {
        None
    }
}

impl LegacySignedTransaction {
    /// The sender's nonce.
    pub fn nonce(&self) -> (r: &u64)
        ensures
            *r == self.nonce,
    {
        &self.nonce
    }

    /// The chain id that the signature commits to, if it has replay protection.
    pub fn chain_id(&self) -> (r: Option<u64>)
        ensures
            r == chain_id_of(self.signature.v),
    {
        if self.signature.v > 36 {
            Some((self.signature.v - 35) / 2)
        } else {
            None
        }
    }
}

} // verus!
