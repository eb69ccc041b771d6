use vstd::prelude::*;
use crate::digest::{hash_sha256, sha256_of};

verus! {

/// The length, in bytes, of the entropy the pipeline accepts.
pub const ENTROPY_LEN: usize = 32;

/// The one-byte integrity digest of an entropy buffer: the first byte of
/// its SHA-256 digest.
pub open spec fn checksum_spec(entropy: Seq<u8>) -> u8 {
    sha256_of(entropy)[0]
}

/// The entropy buffer with its checksum byte appended.
pub open spec fn extended_spec(entropy: Seq<u8>) -> Seq<u8> {
    entropy.push(checksum_spec(entropy))
}

/// Computes the one-byte checksum of a 32-byte entropy buffer.
pub fn checksum(entropy: &Vec<u8>) -> (r: u8)
    requires
        entropy@.len() == ENTROPY_LEN,
    ensures
        r == checksum_spec(entropy@),
{
    let digest = hash_sha256(entropy.as_slice());
    digest[0]
}

/// Appends the checksum byte directly after the entropy bytes, preserving
/// their order.
pub fn append_checksum(entropy: &Vec<u8>, checksum: u8) -> (r: Vec<u8>)
    ensures
        r@ == entropy@.push(checksum),
{
    let mut extended: Vec<u8> = Vec::new();
    let mut i: usize = 0;
    while i < entropy.len()
        invariant
            i <= entropy@.len(),
            extended@ == entropy@.take(i as int),
        decreases entropy@.len() - i,
    {
        extended.push(entropy[i]);
        i = i + 1;
    }
    proof {
        assert(entropy@.take(entropy@.len() as int) =~= entropy@);
    }
    extended.push(checksum);
    extended
}

} // verus!
