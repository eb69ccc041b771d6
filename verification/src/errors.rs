use vstd::prelude::*;

verus! {

/// Failures of the derivation pipeline and of wordlist validation.
///
/// Resource failures (a missing or unreadable wordlist source) abort the
/// embedding program before this library is ever called, so they have no
/// variant here.
#[derive(Clone, Copy, Debug, PartialEq, Eq, Structural)]
pub enum MnemonicError {
    /// The wordlist data is malformed: not exactly 2048 entries, or an
    /// entry that is not a single non-empty lowercase word.
    FormatError,
    /// A packed word index falls outside the wordlist's valid range; an
    /// internal invariant of the bit packing has been violated.
    PreconditionViolation,
    /// The key-derivation step was configured with a zero iteration count.
    ConfigurationError,
}

} // verus!
