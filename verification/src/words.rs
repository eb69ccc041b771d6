use vstd::prelude::*;
use crate::errors::MnemonicError;

verus! {

/// The number of entries a wordlist must have: one for each value an
/// 11-bit word index can take.
pub const WORDLIST_LEN: usize = 2048;

/// A single valid wordlist entry: a non-empty word of lowercase ASCII
/// letters, with no embedded whitespace.
pub open spec fn word_valid(w: Seq<char>) -> bool {
    w.len() >= 1 && forall|i: int| 0 <= i < w.len() ==> 'a' <= #[trigger] w[i] && w[i] <= 'z'
}

/// A valid wordlist: exactly 2048 entries, each a valid word.
pub open spec fn wordlist_valid(wl: Seq<String>) -> bool {
    wl.len() == WORDLIST_LEN && forall|i: int| 0 <= i < wl.len() ==> word_valid(#[trigger] wl[i]@)
}

/// The words selected from a wordlist by a sequence of indices, in index
/// order.
pub open spec fn mapped_words(indices: Seq<u16>, wl: Seq<String>) -> Seq<String> {
    Seq::new(indices.len(), |k: int| wl[indices[k] as int])
}

/// Decides whether a single entry is a valid word.
pub fn check_word(w: &String) -> (r: bool)
    ensures
        r == word_valid(w@),
{
    let n: usize = w.as_str().unicode_len();
    if n == 0 {
        return false;
    }
    let mut i: usize = 0;
    while i < n
        invariant
            n == w@.len(),
            1 <= n,
            i <= n,
            forall|k: int| 0 <= k < i ==> 'a' <= #[trigger] w@[k] && w@[k] <= 'z',
        decreases n - i,
    {
        let c: char = w.as_str().get_char(i);
        if c < 'a' || c > 'z' {
            proof {
                assert(word_valid(w@) ==> 'a' <= w@[i as int] && w@[i as int] <= 'z');
            }
            return false;
        }
        i = i + 1;
    }
    true
}

/// Checks an externally loaded wordlist before any derivation uses it:
/// exactly 2048 entries, each a non-empty lowercase word. A malformed
/// list is a fatal load-time condition, reported as `FormatError`.
pub fn validate_wordlist(wordlist: &Vec<String>) -> (r: Result<(), MnemonicError>)
    ensures
        r is Ok <==> wordlist_valid(wordlist@),
        r is Err ==> r == Err::<(), MnemonicError>(MnemonicError::FormatError),
{
    if wordlist.len() != WORDLIST_LEN {
        return Err(MnemonicError::FormatError);
    }
    let mut i: usize = 0;
    while i < wordlist.len()
        invariant
            wordlist@.len() == WORDLIST_LEN,
            i <= wordlist@.len(),
            forall|k: int| 0 <= k < i ==> word_valid(#[trigger] wordlist@[k]@),
        decreases wordlist@.len() - i,
    {
        if !check_word(&wordlist[i]) {
            proof {
                assert(wordlist_valid(wordlist@) ==> word_valid(wordlist@[i as int]@));
            }
            return Err(MnemonicError::FormatError);
        }
        i = i + 1;
    }
    Ok(())
}

/// Resolves each packed index against the wordlist, in input order.
///
/// An index outside the wordlist's range is an internal invariant failure
/// of the bit packing; it aborts the derivation with
/// `PreconditionViolation` rather than substitute any word.
pub fn map_words(indices: &Vec<u16>, wordlist: &Vec<String>) -> (r: Result<
    Vec<String>,
    MnemonicError,
>)
    ensures
        r is Ok <==> (forall|k: int|
            0 <= k < indices@.len() ==> (indices@[k] as int) < wordlist@.len()),
        r matches Ok(words) ==> words@ == mapped_words(indices@, wordlist@),
        r is Err ==> r == Err::<Vec<String>, MnemonicError>(MnemonicError::PreconditionViolation),
{
    let mut out: Vec<String> = Vec::new();
    let mut i: usize = 0;
    while i < indices.len()
        invariant
            i <= indices@.len(),
            out@.len() == i,
            forall|k: int| 0 <= k < i ==> (indices@[k] as int) < wordlist@.len(),
            forall|k: int| 0 <= k < i ==> out@[k] == wordlist@[indices@[k] as int],
        decreases indices@.len() - i,
    {
        let idx: usize = indices[i] as usize;
        if idx >= wordlist.len() {
            return Err(MnemonicError::PreconditionViolation);
        }
        out.push(wordlist[idx].clone());
        i = i + 1;
    }
    proof {
        assert(out@ =~= mapped_words(indices@, wordlist@));
    }
    Ok(out)
}

/// The words joined in order with a single space between neighbours.
pub open spec fn join_spec(words: Seq<String>) -> Seq<char>
    decreases words.len(),
{
    if words.len() == 0 {
        Seq::empty()
    } else if words.len() == 1 {
        words[0]@
    } else {
        join_spec(words.drop_last()) + seq![' '] + words.last()@
    }
}

/// Joins the mnemonic words into a single space-delimited phrase, in list
/// order; the order is what makes the seed recoverable.
pub fn join_phrase(words: &Vec<String>) -> (r: String)
    ensures
        r@ == join_spec(words@),
{
    proof {
        reveal_strlit("");
        reveal_strlit(" ");
    }
    let mut phrase: String = String::from_str("");
    let mut i: usize = 0;
    while i < words.len()
        invariant
            i <= words@.len(),
            phrase@ == join_spec(words@.take(i as int)),
        decreases words@.len() - i,
    {
        proof {
            reveal_strlit(" ");
        }
        if i > 0 {
            phrase.append(" ");
        }
        phrase.append(words[i].as_str());
        proof {
            let next = words@.take(i as int + 1);
            assert(next.drop_last() =~= words@.take(i as int));
            assert(next.last() == words@[i as int]);
            assert(" "@ =~= seq![' ']);
            assert(phrase@ =~= join_spec(next));
        }
        i = i + 1;
    }
    proof {
        assert(words@.take(words@.len() as int) =~= words@);
    }
    phrase
}

} // verus!
