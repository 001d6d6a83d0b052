//! Account and identity keys.
//!
//! Every party, token account and mint in the protocol is identified by a
//! fixed-width 32-byte key, mirroring the identity space of the hosting
//! ledger.

use vstd::prelude::*;

verus! {

/// A 32-byte identity: a party, a token account, or an asset (mint).
pub type Key = [u8; 32];

/// Byte-wise equality of two keys.
pub fn key_eq(a: &Key, b: &Key) -> (r: bool)
    ensures
        r == (a@ == b@),
{
    let mut i: usize = 0;
    while i < 32
        invariant
            i <= 32,
            forall|j: int| 0 <= j < i ==> a@[j] == b@[j],
        decreases 32 - i,
    {
        if a[i] != b[i] {
            assert(a@[i as int] != b@[i as int]);
            return false;
        }
        i += 1;
    }
    assert(a@ =~= b@);
    true
}

} // verus!
