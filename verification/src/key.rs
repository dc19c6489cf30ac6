//! Identities of parties and assets.

use vstd::prelude::*;

verus! {

/// A 32-byte ledger identity, held as two halves. It names a party
/// (maker, taker, arbitrator) or a fungible asset.
#[derive(Clone, Copy, Debug, PartialEq, Eq, Structural)]
pub struct Key {
    pub hi: u128,
    pub lo: u128,
}

impl Key {
    /// The key whose upper half is zero and whose lower half is `lo`.
    pub fn from_low(lo: u128) -> (k: Key)
        ensures
            k == (Key { hi: 0, lo }),
    {
        Key { hi: 0, lo }
    }
}

} // verus!
