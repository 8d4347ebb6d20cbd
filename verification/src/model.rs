//! The mathematical definition of MurmurHash3 (x86, 32-bit).

use vstd::prelude::*;

verus! {

/// First multiplier of the per-word scramble.
pub const C1: u32 = 0xcc9e2d51;

/// Second multiplier of the per-word scramble.
pub const C2: u32 = 0x1b873593;

/// Additive constant of the per-word round.
pub const ROUND_ADD: u32 = 0xe6546b64;

/// First multiplier of the final avalanche.
pub const AVALANCHE_1: u32 = 0x85ebca6b;

/// Second multiplier of the final avalanche.
pub const AVALANCHE_2: u32 = 0xc2b2ae35;

/// The multiply-rotate-multiply diffusion applied to every 32-bit word
/// before it is folded into the accumulator. All products are taken
/// modulo 2^32.
#[verifier::opaque]
pub open spec fn scramble(k: u32) -> u32 {
    let a: u32 = k.wrapping_mul(C1);
    let b: u32 = (a << 15) | (a >> 17);
    b.wrapping_mul(C2)
}

/// One round: fold the word `k` into the accumulator `h`.
#[verifier::opaque]
pub open spec fn fold_word(h: u32, k: u32) -> u32 {
    let a: u32 = h ^ scramble(k);
    let b: u32 = (a << 13) | (a >> 19);
    b.wrapping_mul(5).wrapping_add(ROUND_ADD)
}

/// The final avalanche, which spreads every input bit over the whole word.
#[verifier::opaque]
pub open spec fn avalanche(h: u32) -> u32 {
    let a: u32 = h ^ (h >> 16);
    let b: u32 = a.wrapping_mul(AVALANCHE_1);
    let c: u32 = b ^ (b >> 13);
    let d: u32 = c.wrapping_mul(AVALANCHE_2);
    d ^ (d >> 16)
}

/// The 32-bit word whose bytes are `b0`, `b1`, `b2`, `b3`, least
/// significant byte first.
pub open spec fn le_word(b0: u8, b1: u8, b2: u8, b3: u8) -> u32 {
    (b0 as int + 0x100 * b1 as int + 0x1_0000 * b2 as int + 0x100_0000 * b3 as int) as u32
}

/// Byte `i` of `bytes`, or zero where `bytes` has no such byte.
pub open spec fn byte_or_zero(bytes: Seq<u8>, i: int) -> u8 {
    if 0 <= i < bytes.len() {
        bytes[i]
    } else {
        0
    }
}

/// Word `i` of `bytes`: the four bytes from offset `4 * i` on, read
/// little-endian, with zero for every byte that `bytes` lacks.
pub open spec fn word_at(bytes: Seq<u8>, i: int) -> u32 {
    le_word(
        byte_or_zero(bytes, 4 * i),
        byte_or_zero(bytes, 4 * i + 1),
        byte_or_zero(bytes, 4 * i + 2),
        byte_or_zero(bytes, 4 * i + 3),
    )
}

/// The accumulator after the first `n` words of `bytes` have been folded
/// into `h`, in the order in which they stand in `bytes`.
pub open spec fn fold_words(h: u32, bytes: Seq<u8>, n: nat) -> u32
    decreases n,
{
    if n == 0 {
        h
    } else {
        fold_word(fold_words(h, bytes, (n - 1) as nat), word_at(bytes, n - 1))
    }
}

/// The length of a stream as the final mix sees it: reduced modulo 2^32.
pub open spec fn length_word(len: nat) -> u32 {
    (len % 0x1_0000_0000) as u32
}

/// MurmurHash3 (x86, 32-bit) of `bytes` under `seed`.
///
/// Every complete 4-byte word is folded into the accumulator, which starts
/// as `seed`. The 0 to 3 bytes that are left over form one more
/// zero-padded word, which is scrambled and xored in, followed by the
/// length; the avalanche finishes the value. Words are little-endian on
/// every platform.
pub open spec fn murmur3_32(seed: u32, bytes: Seq<u8>) -> u32 {
    let n: nat = bytes.len() / 4;
    let body: u32 = fold_words(seed, bytes, n);
    let tail: u32 = word_at(bytes, n as int);
    avalanche((body ^ scramble(tail)) ^ length_word(bytes.len()))
}

/// What a hasher stands for: the seed it was made with and all the bytes
/// written to it so far, in order.
pub struct Stream {
    pub seed: u32,
    pub bytes: Seq<u8>,
}

impl Stream {
    /// The stream of a fresh hasher: nothing written yet.
    pub open spec fn fresh(seed: u32) -> Stream {
        Stream { seed, bytes: Seq::empty() }
    }

    /// The stream after `more` has been written to it.
    pub open spec fn append(self, more: Seq<u8>) -> Stream {
        Stream { seed: self.seed, bytes: self.bytes + more }
    }

    /// The stream after each chunk of `chunks` has been written to it, one
    /// after another.
    pub open spec fn append_all(self, chunks: Seq<Seq<u8>>) -> Stream
        decreases chunks.len(),
    {
        if chunks.len() == 0 {
            self
        } else {
            self.append_all(chunks.drop_last()).append(chunks.last())
        }
    }

    /// The 32-bit hash of the stream.
    pub open spec fn digest(self) -> u32 {
        murmur3_32(self.seed, self.bytes)
    }
}

} // verus!
