use vstd::prelude::*;
use vstd::arithmetic::power2::{
    pow2, lemma_pow2_unfold, lemma_pow2_pos, lemma_pow2_strictly_increases, lemma2_to64,
};
use vstd::arithmetic::div_mod::{lemma_fundamental_div_mod, lemma_fundamental_div_mod_converse};

verus! {

/// Number of bits in each packed group: every word index carries 11 bits,
/// so indices range over a 2048-entry wordlist.
pub const GROUP_WIDTH: usize = 11;

/// Bit `i` of a byte sequence read as a bitstream: bytes in order, and
/// within each byte the most-significant bit first. The result is 0 or 1.
pub open spec fn bit_at(bytes: Seq<u8>, i: int) -> int {
    ((bytes[i / 8] as int) / (pow2((7 - i % 8) as nat) as int)) % 2
}

/// The value of the first `n` bits of the group starting at bit `start`,
/// read big-endian: the bit extracted first is the most significant.
pub open spec fn group_val(bytes: Seq<u8>, start: int, n: int) -> int
    decreases n,
{
    if n <= 0 {
        0
    } else {
        group_val(bytes, start, n - 1) * 2 + bit_at(bytes, start + n - 1)
    }
}

/// The `k`-th packed word index of a byte sequence: the value of the 11
/// bits starting at bit `11 * k`.
pub open spec fn packed_index(bytes: Seq<u8>, k: int) -> int {
    group_val(bytes, 11 * k, 11)
}

/// A bit is 0 or 1.
proof fn lemma_bit_at_bound(bytes: Seq<u8>, i: int)
    ensures
        0 <= bit_at(bytes, i) <= 1,
{
    lemma_pow2_pos((7 - i % 8) as nat);
}

/// The value of an `n`-bit group lies in `[0, 2^n)`; in particular every
/// full 11-bit group lies in `[0, 2048)`.
pub proof fn lemma_group_val_bound(bytes: Seq<u8>, start: int, n: int)
    requires
        0 <= n,
    ensures
        0 <= group_val(bytes, start, n) < pow2(n as nat),
    decreases n,
{
    if n == 0 {
        lemma2_to64();
    } else {
        lemma_group_val_bound(bytes, start, n - 1);
        lemma_bit_at_bound(bytes, start + n - 1);
        lemma_pow2_unfold(n as nat);
    }
}

/// Every packed index lies in `[0, 2048)`: an 11-bit group cannot address
/// past a 2048-entry wordlist.
pub proof fn lemma_packed_index_bound(bytes: Seq<u8>, k: int)
    ensures
        0 <= packed_index(bytes, k) < 2048,
{
    lemma_group_val_bound(bytes, 11 * k, 11);
    lemma2_to64();
}

/// Repacks a byte sequence into 11-bit word indices.
///
/// The bytes are read in order, most-significant bit of each byte first;
/// each run of 11 consecutive bits is emitted as one big-endian index, in
/// the order the bits were consumed. A trailing group of fewer than 11
/// bits is dropped, matching the policy that the total bit count is the
/// caller's concern; for the pipeline's 33-byte input, 264 bits divide
/// into exactly 24 groups and nothing is lost.
pub fn pack_bits(bytes: &Vec<u8>) -> (r: Vec<u16>)
    ensures
        r@.len() == (8 * bytes@.len()) / 11,
        forall|k: int| 0 <= k < r@.len() ==> r@[k] as int == packed_index(bytes@, k),
        forall|k: int| 0 <= k < r@.len() ==> r@[k] < 2048,
{
    let ghost gbytes: Seq<u8> = bytes@;
    proof {
        lemma2_to64();
    }
    let mut out: Vec<u16> = Vec::new();
    let mut acc: u16 = 0;
    let mut nbits: usize = 0;
    let mut idx: usize = 0;
    while idx < bytes.len()
        invariant
            bytes@ == gbytes,
            idx <= gbytes.len(),
            nbits as int == (8 * idx as int) % 11,
            out@.len() == (8 * idx as int) / 11,
            forall|k: int| 0 <= k < out@.len() ==> out@[k] as int == packed_index(gbytes, k),
            forall|k: int| 0 <= k < out@.len() ==> out@[k] < 2048,
            acc as int == group_val(gbytes, 11 * ((8 * idx as int) / 11), nbits as int),
            (acc as int) < pow2(nbits as nat),
            nbits < 11,
        decreases gbytes.len() - idx,
    {
        let b: u8 = bytes[idx];
        proof {
            lemma2_to64();
        }
        let mut d: u8 = 128;
        let mut j: usize = 0;
        while j < 8
            invariant
                bytes@ == gbytes,
                idx < gbytes.len(),
                gbytes[idx as int] == b,
                j <= 8,
                j < 8 ==> d as int == pow2((7 - j as int) as nat),
                nbits as int == (8 * idx as int + j as int) % 11,
                out@.len() == (8 * idx as int + j as int) / 11,
                forall|k: int| 0 <= k < out@.len() ==> out@[k] as int == packed_index(gbytes, k),
                forall|k: int| 0 <= k < out@.len() ==> out@[k] < 2048,
                acc as int == group_val(
                    gbytes,
                    11 * ((8 * idx as int + j as int) / 11),
                    nbits as int,
                ),
                (acc as int) < pow2(nbits as nat),
                nbits < 11,
            decreases 8 - j,
        {
            let ghost i: int = 8 * idx as int + j as int;
            let ghost s: int = 11 * (i / 11);
            proof {
                lemma_pow2_pos((7 - j as int) as nat);
            }
            let bit: u8 = (b / d) % 2;
            proof {
                // The byte and in-byte position of bit `i` are `idx` and `j`.
                lemma_fundamental_div_mod_converse(i, 8, idx as int, j as int);
                assert(bit as int == bit_at(gbytes, i));
                // Group start plus bits consumed so far equals `i`.
                lemma_fundamental_div_mod(i, 11);
                assert(s + nbits as int == i);
                // No overflow: fewer than 11 bits are ever accumulated.
                if nbits as int + 1 < 11 {
                    lemma_pow2_strictly_increases(nbits as nat + 1, 11);
                }
                lemma2_to64();
                lemma_pow2_unfold(nbits as nat + 1);
            }
            acc = acc * 2 + bit as u16;
            nbits = nbits + 1;
            proof {
                assert(acc as int == group_val(gbytes, s, nbits as int));
            }
            if nbits == GROUP_WIDTH {
                proof {
                    assert(acc < 2048);
                    assert(packed_index(gbytes, i / 11) == acc as int);
                    // After a completed group the next bit starts a new one.
                    lemma_fundamental_div_mod_converse(i + 1, 11, i / 11 + 1, 0);
                }
                out.push(acc);
                acc = 0;
                nbits = 0;
            } else {
                proof {
                    lemma_fundamental_div_mod_converse(i + 1, 11, i / 11, nbits as int);
                }
            }
            j = j + 1;
            d = d / 2;
            proof {
                if j < 8 {
                    lemma_pow2_unfold((8 - j as int) as nat);
                }
            }
        }
        idx = idx + 1;
    }
    out
}

} // verus!
