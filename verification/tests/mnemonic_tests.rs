use mnemonic_seed::checksum::{append_checksum, checksum};
use mnemonic_seed::bits::pack_bits;
use mnemonic_seed::errors::MnemonicError;
use mnemonic_seed::pipeline::run_pipeline;
use mnemonic_seed::seed::{derive_seed, derive_seed_with_iterations};
use mnemonic_seed::words::{join_phrase, map_words, validate_wordlist};

/// A synthetic 2048-entry wordlist: entry `i` is the three-letter base-26
/// rendering of `i`, so all entries are distinct lowercase words.
fn sample_wordlist() -> Vec<String> {
    let mut out: Vec<String> = Vec::new();
    for i in 0..2048usize {
        let a = b'a' + ((i / 676) % 26) as u8;
        let b = b'a' + ((i / 26) % 26) as u8;
        let c = b'a' + (i % 26) as u8;
        out.push(String::from_utf8(vec![a, b, c]).unwrap());
    }
    out
}

const ZERO_ENTROPY_CHECKSUM: u8 = 0x66;

#[test]
fn checksum_of_zero_entropy() {
    let entropy = vec![0u8; 32];
    assert_eq!(checksum(&entropy), ZERO_ENTROPY_CHECKSUM);
}

#[test]
fn checksum_sensitivity_to_single_bit_flips() {
    let entropy = vec![0xabu8; 32];
    let base = checksum(&entropy);
    let mut changed = 0usize;
    for bit in 0..256usize {
        let mut flipped = entropy.clone();
        flipped[bit / 8] ^= 1 << (bit % 8);
        if checksum(&flipped) != base {
            changed += 1;
        }
    }
    assert!(changed >= 1);
}

#[test]
fn append_checksum_places_byte_last() {
    let entropy = vec![1u8, 2, 3];
    let extended = append_checksum(&entropy, 0x99);
    assert_eq!(extended, vec![1u8, 2, 3, 0x99]);
}

#[test]
fn pack_bits_zero_entropy_fixture() {
    let entropy = vec![0u8; 32];
    let extended = append_checksum(&entropy, checksum(&entropy));
    assert_eq!(extended.len(), 33);
    let indices = pack_bits(&extended);
    let mut expected = vec![0u16; 23];
    expected.push(0x66);
    assert_eq!(indices, expected);
}

#[test]
fn pack_bits_known_vector() {
    let entropy: Vec<u8> = (0u8..32).collect();
    assert_eq!(checksum(&entropy), 0x63);
    let extended = append_checksum(&entropy, 0x63);
    let indices = pack_bits(&extended);
    let expected: Vec<u16> = vec![
        0, 64, 1030, 64, 643, 28, 257, 266, 88, 771, 540, 241, 8, 1096, 610, 1045, 176, 1478,
        50, 417, 1422, 116, 963, 1891,
    ];
    assert_eq!(indices, expected);
}

#[test]
fn pack_bits_drops_trailing_partial_group() {
    assert_eq!(pack_bits(&vec![0xffu8]), Vec::<u16>::new());
    assert_eq!(pack_bits(&vec![0xffu8, 0xff]), vec![2047u16]);
}

#[test]
fn map_words_resolves_in_input_order() {
    let wordlist = sample_wordlist();
    let indices = vec![1u16, 0, 2047];
    let words = map_words(&indices, &wordlist).unwrap();
    assert_eq!(words, vec!["aab".to_string(), "aaa".to_string(), "dat".to_string()]);
}

#[test]
fn map_words_out_of_range_is_precondition_violation() {
    let wordlist = sample_wordlist();
    let indices = vec![0u16, 2048];
    assert_eq!(map_words(&indices, &wordlist), Err(MnemonicError::PreconditionViolation));
}

#[test]
fn join_phrase_single_spaces() {
    let words = vec!["abc".to_string(), "def".to_string(), "ghi".to_string()];
    assert_eq!(join_phrase(&words), "abc def ghi");
    assert_eq!(join_phrase(&vec!["solo".to_string()]), "solo");
    assert_eq!(join_phrase(&Vec::new()), "");
}

#[test]
fn validate_wordlist_accepts_well_formed_list() {
    assert_eq!(validate_wordlist(&sample_wordlist()), Ok(()));
}

#[test]
fn validate_wordlist_rejects_wrong_length() {
    let mut wordlist = sample_wordlist();
    wordlist.pop();
    assert_eq!(validate_wordlist(&wordlist), Err(MnemonicError::FormatError));
}

#[test]
fn validate_wordlist_rejects_malformed_words() {
    let mut uppercase = sample_wordlist();
    uppercase[5] = "Abc".to_string();
    assert_eq!(validate_wordlist(&uppercase), Err(MnemonicError::FormatError));

    let mut empty = sample_wordlist();
    empty[0] = String::new();
    assert_eq!(validate_wordlist(&empty), Err(MnemonicError::FormatError));

    let mut spaced = sample_wordlist();
    spaced[7] = "a b".to_string();
    assert_eq!(validate_wordlist(&spaced), Err(MnemonicError::FormatError));
}

#[test]
fn derive_seed_known_vector() {
    let phrase = "legal winner thank year wave sausage worth useful legal winner thank yellow";
    let seed = derive_seed(phrase, "example");
    let expected = hex::decode(
        "5f2831701decd89f802ecadd57f6cc8375f5a6e266f92d85707394da0f9e637c\
         b0f18f6c9e81d7d9c43eeab997699e9b75badbfd4e02c73f403c95f7a7ff03d5",
    )
    .unwrap();
    assert_eq!(seed, expected);
}

#[test]
fn derive_seed_zero_iterations_rejected() {
    let r = derive_seed_with_iterations("phrase", "pass", 0);
    assert_eq!(r, Err(MnemonicError::ConfigurationError));
}

#[test]
fn derive_seed_matches_configurable_form() {
    let seed = derive_seed("some phrase", "pass");
    let other = derive_seed_with_iterations("some phrase", "pass", 2048).unwrap();
    assert_eq!(seed, other);
    assert_eq!(seed.len(), 64);
}

#[test]
fn passphrase_sensitivity() {
    let phrase = "legal winner thank year wave sausage worth useful legal winner thank yellow";
    let a = derive_seed(phrase, "first");
    let b = derive_seed(phrase, "second");
    let c = derive_seed(phrase, "");
    assert_ne!(a, b);
    assert_ne!(a, c);
    assert_ne!(b, c);
}

#[test]
fn pipeline_produces_24_wordlist_words() {
    let wordlist = sample_wordlist();
    let entropy = vec![0u8; 32];
    let out = run_pipeline(&entropy, &wordlist, "").unwrap();
    assert_eq!(out.mnemonic.len(), 24);
    for word in &out.mnemonic {
        assert!(wordlist.contains(word));
    }
    let mut expected = vec!["aaa".to_string(); 23];
    expected.push(wordlist[0x66].clone());
    assert_eq!(out.mnemonic, expected);
    assert_eq!(out.phrase, expected.join(" "));
    assert_eq!(out.seed.len(), 64);
}

#[test]
fn pipeline_is_deterministic() {
    let wordlist = sample_wordlist();
    let entropy: Vec<u8> = (0u8..32).collect();
    let first = run_pipeline(&entropy, &wordlist, "pass").unwrap();
    let second = run_pipeline(&entropy, &wordlist, "pass").unwrap();
    assert_eq!(first.mnemonic, second.mnemonic);
    assert_eq!(first.phrase, second.phrase);
    assert_eq!(first.seed, second.seed);
}

#[test]
fn pipeline_seed_matches_direct_derivation() {
    let wordlist = sample_wordlist();
    let entropy = vec![0x11u8; 32];
    let out = run_pipeline(&entropy, &wordlist, "pw").unwrap();
    assert_eq!(out.seed, derive_seed(&out.phrase, "pw"));
}
