use anchor_lang::solana_program::hash::{hash, hashv};
use vstd::prelude::*;

verus! {

/// What `anchor_lang::solana_program::hash::hash` returns for the given bytes
/// (the SHA-256 digest of them).
pub uninterp spec fn solana_hash(data: Seq<u8>) -> Seq<u8>;

/// What `anchor_lang::solana_program::hash::hashv` returns for the given list
/// of byte strings (the SHA-256 digest of their concatenation).
pub uninterp spec fn solana_hashv(parts: Seq<Seq<u8>>) -> Seq<u8>;

/// Calls `solana_program::hash::hash` and hands back the 32 digest bytes.
/// Trusted: the bytes are the name `solana_hash` applied to the input bytes;
/// which bytes those are is not stated.
#[verifier::external_body]
pub(crate) fn sha256(data: &[u8]) -> (r: [u8; 32])
    ensures
        r@ == solana_hash(data@),
{
    hash(data).to_bytes()
}

/// Calls `solana_program::hash::hashv` on the given parts, in order, and
/// hands back the 32 digest bytes. Trusted: the bytes are the name
/// `solana_hashv` applied to the list of parts; which bytes those are is not
/// stated.
#[verifier::external_body]
pub(crate) fn sha256_parts(parts: &Vec<Vec<u8>>) -> (r: [u8; 32])
    ensures
        r@ == solana_hashv(parts@.map_values(|p: Vec<u8>| p@)),
{
    let slices: Vec<&[u8]> = parts.iter().map(|p| p.as_slice()).collect();
    hashv(&slices).to_bytes()
}

} // verus!
