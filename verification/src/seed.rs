use vstd::prelude::*;
use crate::errors::MnemonicError;

verus! {

/// The iteration count the pipeline uses for key stretching: a deliberate,
/// fixed cost factor.
pub const KDF_ITERATIONS: u32 = 2048;

/// The number of bytes of derived seed material.
pub const SEED_LEN: usize = 64;

/// The 64-byte PBKDF2 output for a password, a salt and an iteration
/// count, under HMAC-SHA-512: named but not defined. Its value is fixed by
/// the arguments alone and is computed only by the `pbkdf2` crate.
pub uninterp spec fn pbkdf2_of(password: Seq<char>, salt: Seq<char>, rounds: u32) -> Seq<u8>;

/// The derivation salt: the literal prefix `mnemonic` followed by the
/// passphrase.
pub open spec fn salt_spec(passphrase: Seq<char>) -> Seq<char> {
    "mnemonic"@ + passphrase
}

/// The seed derived from a mnemonic phrase and a passphrase: 64 bytes of
/// PBKDF2-HMAC-SHA-512 output over the phrase and the salt.
pub open spec fn seed_spec(phrase: Seq<char>, passphrase: Seq<char>, rounds: u32) -> Seq<u8> {
    pbkdf2_of(phrase, salt_spec(passphrase), rounds)
}

/// Relies on `pbkdf2::pbkdf2_hmac` with `sha2::Sha512` as the digest: the
/// output is a pure function of password, salt, iteration count and
/// requested length, and it fills the 64-byte buffer handed to it.
#[verifier::external_body]
fn pbkdf2_sha512(password: &str, salt: &str, rounds: u32) -> (r: Vec<u8>)
    requires
        rounds >= 1,
    ensures
        r@ == pbkdf2_of(password@, salt@, rounds),
        r@.len() == SEED_LEN,
{
    let mut out = vec![0u8; 64];
    pbkdf2::pbkdf2_hmac::<sha2::Sha512>(password.as_bytes(), salt.as_bytes(), rounds, &mut out);
    out
}

/// Stretches a mnemonic phrase and a passphrase into a 64-byte seed, with
/// a configurable iteration count.
///
/// A zero iteration count is rejected as `ConfigurationError` before any
/// derivation begins; every positive count succeeds.
pub fn derive_seed_with_iterations(phrase: &str, passphrase: &str, iterations: u32) -> (r: Result<
    Vec<u8>,
    MnemonicError,
>)
    ensures
        iterations == 0 ==> r == Err::<Vec<u8>, MnemonicError>(MnemonicError::ConfigurationError),
        iterations >= 1 ==> (r matches Ok(seed) && seed@ == seed_spec(
            phrase@,
            passphrase@,
            iterations,
        ) && seed@.len() == SEED_LEN),
{
    if iterations == 0 {
        return Err(MnemonicError::ConfigurationError);
    }
    let mut salt: String = String::from_str("mnemonic");
    salt.append(passphrase);
    let seed = pbkdf2_sha512(phrase, salt.as_str(), iterations);
    Ok(seed)
}

/// Stretches a mnemonic phrase and a passphrase into a 64-byte seed at the
/// pipeline's fixed iteration count of 2048.
pub fn derive_seed(phrase: &str, passphrase: &str) -> (r: Vec<u8>)
    ensures
        r@ == seed_spec(phrase@, passphrase@, KDF_ITERATIONS),
        r@.len() == SEED_LEN,
{
    let result = derive_seed_with_iterations(phrase, passphrase, KDF_ITERATIONS);
    match result {
        Ok(seed) => seed,
        Err(_) => {
            proof {
                assert(false);
            }
            Vec::new()
        },
    }
}

} // verus!
