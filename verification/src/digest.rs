use vstd::prelude::*;

verus! {

/// The SHA-256 digest of a byte sequence, named but not defined: its value
/// is fixed by the arguments alone and is computed only by the `sha2` crate.
pub uninterp spec fn sha256_of(data: Seq<u8>) -> Seq<u8>;

/// The RIPEMD-160 digest of a byte sequence, named but not defined: its
/// value is fixed by the arguments alone and is computed only by the
/// `ripemd` crate.
pub uninterp spec fn ripemd160_of(data: Seq<u8>) -> Seq<u8>;

/// Relies on `sha2::Sha256` (`Digest::update` then `Digest::finalize`):
/// the digest is a pure function of the input bytes and is 32 bytes long.
#[verifier::external_body]
pub(crate) fn hash_sha256(data: &[u8]) -> (r: [u8; 32])
    ensures
        r@ == sha256_of(data@),
{
    let mut hasher = <sha2::Sha256 as sha2::Digest>::new();
    sha2::Digest::update(&mut hasher, data);
    sha2::Digest::finalize(hasher).into()
}

/// Relies on `ripemd::Ripemd160` (`Digest::update` then `Digest::finalize`):
/// the digest is a pure function of the input bytes and is 20 bytes long.
#[verifier::external_body]
pub(crate) fn hash_ripemd160(data: &[u8]) -> (r: [u8; 20])
    ensures
        r@ == ripemd160_of(data@),
{
    let mut hasher = <ripemd::Ripemd160 as ripemd::Digest>::new();
    ripemd::Digest::update(&mut hasher, data);
    ripemd::Digest::finalize(hasher).into()
}

} // verus!
