use vstd::prelude::*;
use crate::bits::{pack_bits, packed_index, lemma_packed_index_bound};
use crate::checksum::{checksum, append_checksum, extended_spec, ENTROPY_LEN};
use crate::errors::MnemonicError;
use crate::seed::{derive_seed, seed_spec, KDF_ITERATIONS, SEED_LEN};
use crate::words::{join_phrase, join_spec, map_words, WORDLIST_LEN};

verus! {

/// The number of words a mnemonic carries for 32-byte entropy: 33 extended
/// bytes hold 264 bits, which pack into exactly 24 groups of 11.
pub const MNEMONIC_WORDS: usize = 24;

/// The packed word indices of an entropy buffer: the 11-bit groups of the
/// entropy extended with its checksum byte.
pub open spec fn indices_spec(entropy: Seq<u8>) -> Seq<int> {
    Seq::new(
        ((8 * extended_spec(entropy).len()) / 11) as nat,
        |k: int| packed_index(extended_spec(entropy), k),
    )
}

/// The mnemonic of an entropy buffer against a wordlist: each packed index
/// resolved to its word, in order.
pub open spec fn mnemonic_spec(entropy: Seq<u8>, wordlist: Seq<String>) -> Seq<String> {
    Seq::new(indices_spec(entropy).len(), |k: int| wordlist[indices_spec(entropy)[k]])
}

/// The mnemonic phrase: the mnemonic words joined with single spaces.
pub open spec fn phrase_spec(entropy: Seq<u8>, wordlist: Seq<String>) -> Seq<char> {
    join_spec(mnemonic_spec(entropy, wordlist))
}

/// The seed of an entropy buffer, wordlist and passphrase: the phrase
/// stretched at the pipeline's fixed iteration count.
pub open spec fn pipeline_seed_spec(
    entropy: Seq<u8>,
    wordlist: Seq<String>,
    passphrase: Seq<char>,
) -> Seq<u8> {
    seed_spec(phrase_spec(entropy, wordlist), passphrase, KDF_ITERATIONS)
}

/// Everything one derivation produces: the mnemonic words, the joined
/// phrase, and the stretched seed.
pub struct PipelineOutput {
    /// The mnemonic, in the order the bits were consumed.
    pub mnemonic: Vec<String>,
    /// The mnemonic words joined with single spaces.
    pub phrase: String,
    /// The 64-byte derived seed.
    pub seed: Vec<u8>,
}

/// Runs the full derivation on caller-supplied entropy, in fixed order:
/// checksum, append, bit packing, word mapping, phrase join, seed
/// derivation.
///
/// For 32-byte entropy and a 2048-entry wordlist no stage can fail, and
/// every field of the output is pinned to a function of the inputs.
pub fn run_pipeline(entropy: &Vec<u8>, wordlist: &Vec<String>, passphrase: &str) -> (r: Result<
    PipelineOutput,
    MnemonicError,
>)
    requires
        entropy@.len() == ENTROPY_LEN,
        wordlist@.len() == WORDLIST_LEN,
    ensures
        r matches Ok(out) && out.mnemonic@ == mnemonic_spec(entropy@, wordlist@)
            && out.phrase@ == phrase_spec(entropy@, wordlist@) && out.seed@ == pipeline_seed_spec(
            entropy@,
            wordlist@,
            passphrase@,
        ) && out.mnemonic@.len() == MNEMONIC_WORDS && out.seed@.len() == SEED_LEN,
{
    let check: u8 = checksum(entropy);
    let extended: Vec<u8> = append_checksum(entropy, check);
    let indices: Vec<u16> = pack_bits(&extended);
    let words: Vec<String> = match map_words(&indices, wordlist) {
        Ok(words) => words,
        Err(_) => {
            proof {
                assert forall|k: int|
                    0 <= k < indices@.len() implies (indices@[k] as int) < wordlist@.len() by {}
                assert(false);
            }
            Vec::new()
        },
    };
    proof {
        assert(words@ =~= mnemonic_spec(entropy@, wordlist@));
    }
    let phrase: String = join_phrase(&words);
    let seed: Vec<u8> = derive_seed(phrase.as_str(), passphrase);
    Ok(PipelineOutput { mnemonic: words, phrase, seed })
}

/// Runs the full derivation from freshly drawn entropy, returning the
/// entropy alongside the output: every field of the output is pinned to a
/// function of whatever entropy was drawn.
pub fn run_pipeline_fresh(wordlist: &Vec<String>, passphrase: &str) -> (r: Result<
    (Vec<u8>, PipelineOutput),
    MnemonicError,
>)
    requires
        wordlist@.len() == WORDLIST_LEN,
    ensures
        r matches Ok(out) && out.0@.len() == ENTROPY_LEN && out.1.mnemonic@ == mnemonic_spec(
            out.0@,
            wordlist@,
        ) && out.1.phrase@ == phrase_spec(out.0@, wordlist@) && out.1.seed@ == pipeline_seed_spec(
            out.0@,
            wordlist@,
            passphrase@,
        ),
{
    let raw: [u8; 32] = crate::address::generate_private_key();
    let mut entropy: Vec<u8> = Vec::new();
    let mut i: usize = 0;
    while i < 32
        invariant
            i <= 32,
            entropy@ == raw@.take(i as int),
        decreases 32 - i,
    {
        entropy.push(raw[i]);
        i = i + 1;
    }
    let output: PipelineOutput = match run_pipeline(&entropy, wordlist, passphrase) {
        Ok(output) => output,
        Err(_) => {
            proof {
                assert(false);
            }
            return Err(MnemonicError::PreconditionViolation);
        },
    };
    Ok((entropy, output))
}

/// Law: for every 32-byte entropy buffer and 2048-entry wordlist, the
/// pipeline's mnemonic has exactly 24 words, each drawn from the wordlist.
pub proof fn lemma_mnemonic_well_formed(entropy: Seq<u8>, wordlist: Seq<String>)
    requires
        entropy.len() == ENTROPY_LEN,
        wordlist.len() == WORDLIST_LEN,
    ensures
        mnemonic_spec(entropy, wordlist).len() == MNEMONIC_WORDS,
        forall|k: int|
            0 <= k < MNEMONIC_WORDS ==> wordlist.contains(
                #[trigger] mnemonic_spec(entropy, wordlist)[k],
            ),
{
    assert forall|k: int|
        0 <= k < MNEMONIC_WORDS implies wordlist.contains(
        #[trigger] mnemonic_spec(entropy, wordlist)[k],
    ) by {
        lemma_packed_index_bound(extended_spec(entropy), k);
        let idx: int = indices_spec(entropy)[k];
        assert(wordlist[idx] == mnemonic_spec(entropy, wordlist)[k]);
    }
}

/// Law: the pipeline is deterministic. Any two results that meet the
/// pipeline's contract for the same entropy, wordlist and passphrase are
/// identical in mnemonic, phrase and seed.
pub proof fn lemma_pipeline_deterministic(
    entropy: Seq<u8>,
    wordlist: Seq<String>,
    passphrase: Seq<char>,
    mnemonic1: Seq<String>,
    phrase1: Seq<char>,
    seed1: Seq<u8>,
    mnemonic2: Seq<String>,
    phrase2: Seq<char>,
    seed2: Seq<u8>,
)
    requires
        mnemonic1 == mnemonic_spec(entropy, wordlist),
        phrase1 == phrase_spec(entropy, wordlist),
        seed1 == pipeline_seed_spec(entropy, wordlist, passphrase),
        mnemonic2 == mnemonic_spec(entropy, wordlist),
        phrase2 == phrase_spec(entropy, wordlist),
        seed2 == pipeline_seed_spec(entropy, wordlist, passphrase),
    ensures
        mnemonic1 == mnemonic2,
        phrase1 == phrase2,
        seed1 == seed2,
{
}

} // verus!
