//! Deterministic mnemonic-to-seed derivation.
//!
//! Fixed-size entropy is extended with a one-byte digest checksum, repacked
//! into 11-bit word indices, rendered as a word sequence against an external
//! 2048-entry wordlist, and stretched into a 64-byte seed by an iterated
//! key-derivation function. A small companion module derives a
//! base58check-encoded address from a key pair.

pub mod errors;
pub mod digest;
pub mod checksum;
pub mod bits;
pub mod words;
pub mod seed;
pub mod pipeline;
pub mod address;
