use vstd::prelude::*;

verus! {

/// A 32-byte account address, as the runtime hands it over.
pub type Pubkey = [u8; 32];

/// The all-zero key: the default address, and the data hash of a request
/// account that was never filled.
pub open spec fn is_zero_bytes(a: Seq<u8>) -> bool {
    forall|j: int| 0 <= j < a.len() ==> a[j] == 0
}

/// Compares two 32-byte values (keys or hashes) byte by byte.
pub fn bytes32_eq(a: &[u8; 32], b: &[u8; 32]) -> (r: bool)
    ensures
        r == (a@ == b@),
{
    let mut i: usize = 0;
    while i < 32
        invariant
            0 <= i <= 32,
            a@.len() == 32,
            b@.len() == 32,
            forall|j: int| 0 <= j < i ==> a@[j] == b@[j],
        decreases 32 - i,
    {
        if a[i] != b[i] {
            assert(a@[i as int] != b@[i as int]);
            return false;
        }
        i = i + 1;
    }
    assert(a@ =~= b@);
    true
}

/// Tells whether every byte of a 32-byte value is zero.
pub fn is_zero32(a: &[u8; 32]) -> (r: bool)
    ensures
        r == is_zero_bytes(a@),
{
    let mut i: usize = 0;
    while i < 32
        invariant
            0 <= i <= 32,
            a@.len() == 32,
            forall|j: int| 0 <= j < i ==> a@[j] == 0,
        decreases 32 - i,
    {
        if a[i] != 0 {
            assert(a@[i as int] != 0);
            return false;
        }
        i = i + 1;
    }
    true
}

/// The 32 bytes of the default (all-zero) key.
pub open spec fn zero_bytes32() -> Seq<u8> {
    Seq::new(32, |_i: int| 0u8)
}

/// The default (all-zero) key.
pub fn zero_key() -> (r: Pubkey)
    ensures
        r@ == zero_bytes32(),
{
    let r: [u8; 32] = [0u8; 32];
    assert(r@ =~= zero_bytes32());
    r
}

} // verus!
