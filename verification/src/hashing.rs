use vstd::prelude::*;

use parity_scale_codec::Encode;

verus! {

/// The `n` low bytes of `x`, least significant first.
pub open spec fn le_bytes(x: nat, n: nat) -> Seq<u8>
    decreases n,
{
    if n == 0 {
        Seq::empty()
    } else {
        seq![(x % 256) as u8] + le_bytes(x / 256, (n - 1) as nat)
    }
}

/// The SCALE encoding of the triple `(seed, sender, extrinsic_index)`: the seed's bytes
/// as they are, the sender as eight little-endian bytes, then `0` for no extrinsic index
/// or `1` followed by the index as four little-endian bytes.
pub open spec fn scale_seed_payload(seed: Seq<u8>, sender: u64, extrinsic_index: Option<u32>) -> Seq<u8> {
    seed + le_bytes(sender as nat, 8) + match extrinsic_index {
        None => seq![0u8],
        Some(i) => seq![1u8] + le_bytes(i as nat, 4),
    }
}

/// The 128-bit Blake2b digest of `data`.
pub uninterp spec fn blake2_128_digest(data: Seq<u8>) -> Seq<u8>;

/// The DNA drawn for `sender` from a random seed and the current extrinsic index: the
/// 128-bit Blake2b digest of their SCALE encoding.
pub open spec fn spec_random_dna(seed: Seq<u8>, sender: u64, extrinsic_index: Option<u32>) -> Seq<u8> {
    blake2_128_digest(scale_seed_payload(seed, sender, extrinsic_index))
}

/// Calls `parity_scale_codec::Encode::encode` on the triple `(seed, sender, extrinsic_index)`.
/// Trusted: the result is the SCALE encoding that the codec documents for a tuple of a
/// byte array, a `u64` and an `Option<u32>` (see `scale_seed_payload`).
#[verifier::external_body]
pub(crate) fn encode_seed_payload(seed: [u8; 32], sender: u64, extrinsic_index: Option<u32>) -> (out: Vec<u8>)
    ensures
        out@ == scale_seed_payload(seed@, sender, extrinsic_index),
{
    (seed, sender, extrinsic_index).encode()
}

/// Calls `sp_io::hashing::blake2_128`. Trusted: the digest is `blake2_128_digest` of the
/// input bytes, a function of those bytes alone.
#[verifier::external_body]
pub(crate) fn blake2_128(data: &[u8]) -> (digest: [u8; 16])
    ensures
        digest@ == blake2_128_digest(data@),
{
    sp_io::hashing::blake2_128(data)
}

} // verus!
