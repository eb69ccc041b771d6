use vstd::prelude::*;
use crate::digest::{hash_ripemd160, hash_sha256, ripemd160_of, sha256_of};

verus! {

/// The base58 rendering of a byte sequence, named but not defined: its
/// value is fixed by the bytes alone and is computed only by the `base58`
/// crate.
pub uninterp spec fn base58_of(data: Seq<u8>) -> Seq<char>;

/// The compressed, serialized secp256k1 public key of a 32-byte secret
/// key, named but not defined: its value is fixed by the secret key alone
/// and is computed only by the `secp256k1` crate.
pub uninterp spec fn pubkey_of(private_key: Seq<u8>) -> Seq<u8>;

/// Relies on `base58::ToBase58::to_base58` for byte slices: the rendering
/// is a pure function of the bytes.
#[verifier::external_body]
fn base58_encode(data: &[u8]) -> (r: String)
    ensures
        r@ == base58_of(data@),
{
    base58::ToBase58::to_base58(data)
}

/// Relies on `rand::thread_rng` and `rand::Rng::gen` to draw 32 random
/// bytes. Nothing can be promised of the value drawn.
#[verifier::external_body]
pub fn generate_private_key() -> (r: [u8; 32])
    ensures
        r@.len() == 32,
{
    rand::Rng::gen::<[u8; 32]>(&mut rand::thread_rng())
}

/// Relies on `secp256k1::SecretKey::from_secret_bytes` and
/// `secp256k1::PublicKey::from_secret_key` with `serialize`: when the 32
/// bytes form a valid secret key the result is its compressed public key,
/// a pure function of the secret key; invalid bytes give `None`.
#[verifier::external_body]
pub fn generate_public_key(private_key: &[u8; 32]) -> (r: Option<[u8; 33]>)
    ensures
        r matches Some(pk) ==> pk@ == pubkey_of(private_key@),
{
    match secp256k1::SecretKey::from_secret_bytes(*private_key) {
        Ok(secret_key) => Some(secp256k1::PublicKey::from_secret_key(&secret_key).serialize()),
        Err(_) => None,
    }
}

/// The 21-byte address payload of a public key: the version byte 0
/// followed by the RIPEMD-160 digest of the SHA-256 digest of the key.
pub open spec fn address_payload_spec(public_key: Seq<u8>) -> Seq<u8> {
    seq![0u8] + ripemd160_of(sha256_of(public_key))
}

/// The base58check address of a public key: the payload followed by the
/// first four bytes of its double SHA-256 digest, rendered in base58.
pub open spec fn address_spec(public_key: Seq<u8>) -> Seq<char> {
    base58_of(
        address_payload_spec(public_key) + sha256_of(
            sha256_of(address_payload_spec(public_key)),
        ).subrange(0, 4),
    )
}

/// Renders a 21-byte versioned payload with its checksum in base58: the
/// checksum is the first four bytes of the payload's double SHA-256
/// digest, appended after the payload.
pub fn base58check_encode(hashed_2x: &[u8; 32], result_with_version_byte: &[u8]) -> (r: String)
    requires
        result_with_version_byte@.len() == 21,
    ensures
        r@ == base58_of(result_with_version_byte@ + hashed_2x@.subrange(0, 4)),
{
    let mut combined: Vec<u8> = Vec::new();
    let mut i: usize = 0;
    while i < 21
        invariant
            result_with_version_byte@.len() == 21,
            i <= 21,
            combined@ == result_with_version_byte@.take(i as int),
        decreases 21 - i,
    {
        combined.push(result_with_version_byte[i]);
        i = i + 1;
    }
    let mut j: usize = 0;
    while j < 4
        invariant
            result_with_version_byte@.len() == 21,
            j <= 4,
            combined@ == result_with_version_byte@ + hashed_2x@.subrange(0, j as int),
        decreases 4 - j,
    {
        combined.push(hashed_2x[j]);
        proof {
            assert(combined@ =~= result_with_version_byte@ + hashed_2x@.subrange(
                0,
                j as int + 1,
            ));
        }
        j = j + 1;
    }
    base58_encode(combined.as_slice())
}

/// Derives the base58check address of a serialized public key: hash with
/// SHA-256 then RIPEMD-160, prepend the version byte 0, and append the
/// first four bytes of the payload's double SHA-256 digest before
/// rendering in base58.
pub fn address_from_public_key(public_key: &[u8]) -> (r: String)
    ensures
        r@ == address_spec(public_key@),
{
    let sha = hash_sha256(public_key);
    let rip = hash_ripemd160(sha.as_slice());
    let mut payload: Vec<u8> = Vec::new();
    payload.push(0u8);
    let mut i: usize = 0;
    while i < 20
        invariant
            rip@.len() == 20,
            i <= 20,
            payload@ == seq![0u8] + rip@.take(i as int),
        decreases 20 - i,
    {
        payload.push(rip[i]);
        proof {
            assert(payload@ =~= seq![0u8] + rip@.take(i as int + 1));
        }
        i = i + 1;
    }
    proof {
        assert(payload@ =~= address_payload_spec(public_key@));
    }
    let hashed = hash_sha256(payload.as_slice());
    let hashed_2x = hash_sha256(hashed.as_slice());
    base58check_encode(&hashed_2x, payload.as_slice())
}

/// Draws a fresh key pair and derives its address: the full key-to-address
/// run. `None` only in the vanishingly rare case that the drawn bytes do
/// not form a valid secret key.
pub fn generate_address() -> (r: Option<(Vec<u8>, Vec<u8>, String)>)
    ensures
        r matches Some(out) ==> out.0@.len() == 32 && out.1@ == pubkey_of(out.0@) && out.2@
            == address_spec(out.1@),
{
    let private_key: [u8; 32] = generate_private_key();
    let public_key: [u8; 33] = match generate_public_key(&private_key) {
        Some(pk) => pk,
        None => {
            return None;
        },
    };
    let mut sk: Vec<u8> = Vec::new();
    let mut i: usize = 0;
    while i < 32
        invariant
            i <= 32,
            sk@ == private_key@.take(i as int),
        decreases 32 - i,
    {
        sk.push(private_key[i]);
        i = i + 1;
    }
    let mut pk: Vec<u8> = Vec::new();
    let mut j: usize = 0;
    while j < 33
        invariant
            j <= 33,
            pk@ == public_key@.take(j as int),
        decreases 33 - j,
    {
        pk.push(public_key[j]);
        j = j + 1;
    }
    let address: String = address_from_public_key(pk.as_slice());
    proof {
        assert(sk@ =~= private_key@);
        assert(pk@ =~= public_key@);
    }
    Some((sk, pk, address))
}

} // verus!
