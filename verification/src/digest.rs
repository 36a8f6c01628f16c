use vstd::prelude::*;

verus! {

/// The SHA-256 digest of `data`, as `anchor_lang::solana_program::hash::hash` returns it.
pub uninterp spec fn sha256(data: Seq<u8>) -> Seq<u8>;

/// Calls `anchor_lang::solana_program::hash::hash` and takes the digest's 32 bytes out with
/// `Hash::to_bytes`. Believed: the bytes are `sha256` of the input, on every call.
#[verifier::external_body]
pub(crate) fn sha256_of(data: &[u8]) -> (digest: [u8; 32])
    ensures
        digest@ == sha256(data@),
{
    anchor_lang::solana_program::hash::hash(data).to_bytes()
}

} // verus!
