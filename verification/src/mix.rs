//! The executable mixing primitives.

use vstd::prelude::*;
use crate::model::{
    avalanche, fold_word, le_word, scramble, AVALANCHE_1, AVALANCHE_2, C1, C2, ROUND_ADD,
};

verus! {

/// Scrambles one 32-bit word.
pub fn murmur_32_scramble(k: u32) -> (r: u32)
    ensures
        r == scramble(k),
{
    proof {
        reveal(scramble);
    }
    let a: u32 = k.wrapping_mul(C1);
    let b: u32 = (a << 15) | (a >> 17);
    b.wrapping_mul(C2)
}

/// Folds the word `k` into the accumulator `h` and returns the new
/// accumulator.
pub fn compute_full_word(h: u32, k: u32) -> (r: u32)
    ensures
        r == fold_word(h, k),
{
    proof {
        reveal(fold_word);
    }
    let a: u32 = h ^ murmur_32_scramble(k);
    let b: u32 = (a << 13) | (a >> 19);
    b.wrapping_mul(5).wrapping_add(ROUND_ADD)
}

/// Applies the final avalanche to `h`.
pub fn finalize(h: u32) -> (r: u32)
    ensures
        r == avalanche(h),
{
    proof {
        reveal(avalanche);
    }
    let a: u32 = h ^ (h >> 16);
    let b: u32 = a.wrapping_mul(AVALANCHE_1);
    let c: u32 = b ^ (b >> 13);
    let d: u32 = c.wrapping_mul(AVALANCHE_2);
    d ^ (d >> 16)
}

/// Assembles a 32-bit word from four bytes, least significant first.
pub fn word_from_le_bytes(b0: u8, b1: u8, b2: u8, b3: u8) -> (k: u32)
    ensures
        k == le_word(b0, b1, b2, b3),
{
    let k: u32 = (b0 as u32) | ((b1 as u32) << 8) | ((b2 as u32) << 16) | ((b3 as u32) << 24);
    assert((b0 as u32) | ((b1 as u32) << 8) | ((b2 as u32) << 16) | ((b3 as u32) << 24) == (b0 as int
        + 0x100 * b1 as int + 0x1_0000 * b2 as int + 0x100_0000 * b3 as int) as u32)
        by (bit_vector);
    k
}

} // verus!
