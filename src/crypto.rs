use vstd::prelude::*;

verus! {

/// The Keccak-256 digest of a byte string.
pub uninterp spec fn keccak_of(data: Seq<u8>) -> Seq<u8>;

/// Relies on keccak_hash::keccak: the 32-byte Keccak-256 digest of `data`,
/// which depends on the bytes alone.
#[verifier::external_body]
pub(crate) fn keccak256(data: &Vec<u8>) -> (r: [u8; 32])
    ensures
        r@ == keccak_of(data@),
{
    keccak_hash::keccak(data.as_slice()).0
}

/// Relies on rand::random: 32 bytes drawn from the thread-local generator.
/// Nothing is known of the value.
#[verifier::external_body]
pub(crate) fn random_bytes32() -> (r: [u8; 32]) {
    rand::random::<[u8; 32]>()
}

} // verus!
