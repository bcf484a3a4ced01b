//! Accounts: identifiers, public keys, and the leaf content hashed into the
//! ledger's Merkle tree.

use vstd::prelude::*;
use crate::ledger::Amount;
use crate::ledger::append_bytes;
use crate::ledger::copy_bytes;

verus! {

/// A fixed-width account identifier; it serializes to one canonical
/// little-endian byte.
#[derive(Clone, Copy, PartialEq, Eq, Structural, Debug)]
pub struct AccountId(pub u8);

impl AccountId {
    /// The canonical little-endian byte encoding of the identifier.
    pub open spec fn spec_bytes(self) -> Seq<u8> {
        seq![self.0]
    }

    /// Serialize the identifier as its canonical byte.
    pub fn to_bytes_le(&self) -> (r: Vec<u8>)
        ensures
            r@ == self.spec_bytes(),
    {
        let mut r: Vec<u8> = Vec::new();
        r.push(self.0);
        proof {
            assert(r@ =~= seq![self.0]);
        }
        r
    }
}

/// The raw bytes of the public-key point bound to an account.
pub struct AccountPublicKey(pub Vec<u8>);

impl AccountPublicKey {
    /// A fresh key holding the same bytes.
    pub fn duplicate(&self) -> (r: AccountPublicKey)
        ensures
            r.0@ == self.0@,
    {
        AccountPublicKey(copy_bytes(&self.0))
    }
}

/// The content of one leaf of the account tree: the account's public key
/// and its balance. One transaction sees two instances per account, the
/// balance before the transfer and the balance after it.
pub struct AccountInformation {
    pub public_key: AccountPublicKey,
    pub balance: Amount,
}

impl AccountInformation {
    /// The canonical leaf encoding: the public-key bytes followed by the
    /// little-endian balance bytes.
    pub open spec fn spec_bytes(self) -> Seq<u8> {
        self.public_key.0@ + self.balance.spec_bytes()
    }

    /// Serialize the leaf content canonically.
    pub fn to_bytes_le(&self) -> (r: Vec<u8>)
        ensures
            r@ == self.spec_bytes(),
    {
        let mut r = copy_bytes(&self.public_key.0);
        let amount_bytes = self.balance.to_bytes_le();
        append_bytes(&mut r, &amount_bytes);
        r
    }
}

} // verus!
