//! Identities and challenge identifiers.
//!
//! Every account on the ledger — an admin, a participant, an oracle signer, a
//! token mint, an escrow vault, or a challenge record itself — is known to the
//! engine only by its opaque on-ledger address. The engine never derives or
//! interprets addresses; it only stores and compares them.

use vstd::prelude::*;

verus! {

/// Opaque on-ledger address of an account, record, or signer.
#[derive(Clone, Copy, PartialEq, Eq, Structural, Debug, Hash)]
pub struct AccountId {
    pub value: u64,
}

/// Longest admissible challenge identifier, in bytes.
pub const MAX_ID_LENGTH: usize = 32;

/// Compares two challenge identifiers byte for byte.
pub fn ids_equal(a: &Vec<u8>, b: &Vec<u8>) -> (r: bool)
    ensures
        r == (a@ == b@),
{
    if a.len() != b.len() {
        return false;
    }
    let mut i: usize = 0;
    while i < a.len()
        invariant
            i <= a.len(),
            a@.len() == b@.len(),
            forall|j: int| 0 <= j < i ==> a@[j] == b@[j],
        decreases a.len() - i,
    {
        if a[i] != b[i] {
            return false;
        }
        i += 1;
    }
    proof {
        assert(a@ =~= b@);
    }
    true
}

} // verus!
