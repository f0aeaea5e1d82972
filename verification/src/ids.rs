//! Identity keys and commitment hashes as plain 32-byte values.
//!
//! Identities (account keys) and score commitments are opaque 32-byte
//! strings; the ledger only ever compares them for equality and rejects
//! the all-zero commitment sentinel.

use vstd::prelude::*;

verus! {

/// True when every byte of the value is zero: the sentinel that no
/// real commitment may equal.
pub open spec fn spec_all_zero(s: Seq<u8>) -> bool {
    forall|k: int| 0 <= k < s.len() ==> s[k] == 0u8
}

pub fn key_eq(a: &[u8; 32], b: &[u8; 32]) -> (r: bool)
    ensures
        r == (a@ == b@),
{
    let mut i: usize = 0;
    while i < 32
        invariant
            i <= 32,
            forall|k: int| 0 <= k < i ==> a@[k] == b@[k],
        decreases 32 - i,
    {
        if a[i] != b[i] {
            assert(a@[i as int] != b@[i as int]);
            return false;
        }
        i += 1;
    }
    proof {
        assert(a@ =~= b@);
    }
    true
}

pub fn commitment_is_zero(c: &[u8; 32]) -> (r: bool)
    ensures
        r == spec_all_zero(c@),
{
    let mut i: usize = 0;
    while i < 32
        invariant
            i <= 32,
            forall|k: int| 0 <= k < i ==> c@[k] == 0u8,
        decreases 32 - i,
    {
        if c[i] != 0 {
            assert(c@[i as int] != 0u8);
            return false;
        }
        i += 1;
    }
    true
}

} // verus!
