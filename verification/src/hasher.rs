//! The incremental hasher.

use vstd::prelude::*;
use crate::mix::{compute_full_word, finalize, murmur_32_scramble, word_from_le_bytes};
use crate::model::{
    avalanche, byte_or_zero, fold_word, fold_words, le_word, length_word, scramble, Stream,
};

verus! {

/// The state of a MurmurHash3 computation over the bytes written so far.
///
/// A `Murmur3` is not a hash: it is a partial computation, from which
/// [`Murmur3::finish`] reads the hash of everything written. It keeps the
/// accumulator over the complete 4-byte words and the 0 to 3 bytes that do
/// not yet make a word.
///
/// The length that enters the hash is counted modulo 2^32, so that a
/// stream of 2^32 bytes or more still has a hash: the one that
/// [`murmur3_32`](crate::model::murmur3_32) defines.
pub struct Murmur3 {
    /// The bytes written since the last complete word; zero from index
    /// `rem_len` on.
    rem: [u8; 4],
    /// How many bytes of `rem` are pending: 0 to 3.
    rem_len: usize,
    /// The number of bytes folded into `hash`, modulo 2^32.
    total_len: u32,
    /// The accumulator over the complete words.
    hash: u32,
    /// The seed the accumulator started from.
    seed: u32,
    /// Every byte written so far.
    written: Ghost<Seq<u8>>,
}

/// Whether the concrete state `(hash, total_len, rem, rem_len)` is the one
/// that streaming over `s` leaves behind:
///
/// - fewer than four bytes are pending, those after the last complete word;
/// - the accumulator holds the complete words, all of them and nothing else;
/// - `total_len` counts the bytes of those words, modulo 2^32;
/// - `rem` holds the pending bytes, followed by zeros.
spec fn tracks(s: Stream, hash: u32, total_len: u32, rem: Seq<u8>, rem_len: usize) -> bool {
    let n: int = s.bytes.len() as int / 4;
    &&& rem.len() == 4
    &&& rem_len == s.bytes.len() % 4
    &&& hash == fold_words(s.seed, s.bytes, n as nat)
    &&& total_len == length_word((4 * n) as nat)
    &&& rem[0] == byte_or_zero(s.bytes, 4 * n)
    &&& rem[1] == byte_or_zero(s.bytes, 4 * n + 1)
    &&& rem[2] == byte_or_zero(s.bytes, 4 * n + 2)
    &&& rem[3] == byte_or_zero(s.bytes, 4 * n + 3)
}

/// Counting modulo 2^32 from a multiple of four, up to four more bytes are
/// added without wrapping in between.
proof fn lemma_length_word_step(n: int, r: int)
    requires
        0 <= n,
        0 <= r <= 4,
    ensures
        length_word((4 * n) as nat).wrapping_add(r as u32) == length_word((4 * n + r) as nat),
{
    let m: int = (4 * n) % 0x1_0000_0000;
    assert(m % 4 == 0);
    assert(m + r <= 0x1_0000_0000);
    if m + r == 0x1_0000_0000 {
        assert((4 * n + r) % 0x1_0000_0000 == 0);
    } else {
        assert((4 * n + r) % 0x1_0000_0000 == m + r);
    }
}

/// Folding words that lie inside a common prefix of two byte sequences
/// gives the same accumulator.
proof fn lemma_fold_words_prefix(h: u32, a: Seq<u8>, b: Seq<u8>, n: nat)
    requires
        4 * n <= a.len() <= b.len(),
        forall|i: int| 0 <= i < a.len() ==> a[i] == b[i],
    ensures
        fold_words(h, a, n) == fold_words(h, b, n),
    decreases n,
{
    if n > 0 {
        lemma_fold_words_prefix(h, a, b, (n - 1) as nat);
    }
}

/// The stream after the first `j` bytes of a write is the stream after its
/// first `i` bytes with the bytes from `i` to `j` appended.
proof fn lemma_take_step(before: Stream, bytes: Seq<u8>, i: int, j: int)
    requires
        0 <= i <= j <= bytes.len(),
    ensures
        before.append(bytes.take(j)) == before.append(bytes.take(i)).append(bytes.subrange(i, j)),
{
    assert(before.bytes + bytes.take(j) =~= (before.bytes + bytes.take(i)) + bytes.subrange(i, j));
}

/// Writing one byte that does not complete a word extends the pending
/// tail and leaves the accumulator alone.
proof fn lemma_push_pending(
    s: Stream,
    hash: u32,
    total_len: u32,
    rem: Seq<u8>,
    rem_len: usize,
    w: Seq<u8>,
)
    requires
        tracks(s, hash, total_len, rem, rem_len),
        rem_len < 3,
        w.len() == 1,
    ensures
        tracks(s.append(w), hash, total_len, rem.update(rem_len as int, w[0]), (rem_len + 1) as usize),
{
    let t = s.append(w);
    let n: int = s.bytes.len() as int / 4;
    lemma_fold_words_prefix(s.seed, s.bytes, t.bytes, n as nat);
}

/// Writing the byte that completes a word folds that word into the
/// accumulator and empties the pending tail.
proof fn lemma_push_completing(s: Stream, hash: u32, total_len: u32, rem: Seq<u8>, w: Seq<u8>)
    requires
        tracks(s, hash, total_len, rem, 3),
        w.len() == 1,
    ensures
        tracks(
            s.append(w),
            fold_word(hash, le_word(rem[0], rem[1], rem[2], w[0])),
            total_len.wrapping_add(4),
            seq![0u8, 0u8, 0u8, 0u8],
            0,
        ),
{
    let t = s.append(w);
    let n: int = s.bytes.len() as int / 4;
    assert(t.bytes.len() as int / 4 == n + 1);
    lemma_fold_words_prefix(s.seed, s.bytes, t.bytes, n as nat);
    lemma_length_word_step(n, 4);
}

/// Writing four bytes while no byte is pending folds them as one word.
proof fn lemma_push_word(s: Stream, hash: u32, total_len: u32, rem: Seq<u8>, w: Seq<u8>)
    requires
        tracks(s, hash, total_len, rem, 0),
        w.len() == 4,
    ensures
        tracks(
            s.append(w),
            fold_word(hash, le_word(w[0], w[1], w[2], w[3])),
            total_len.wrapping_add(4),
            rem,
            0,
        ),
{
    let t = s.append(w);
    let n: int = s.bytes.len() as int / 4;
    assert(t.bytes.len() as int / 4 == n + 1);
    lemma_fold_words_prefix(s.seed, s.bytes, t.bytes, n as nat);
    lemma_length_word_step(n, 4);
}

/// The hash of a stream, computed from the state that tracks it.
proof fn lemma_digest_of_state(s: Stream, hash: u32, total_len: u32, rem: Seq<u8>, rem_len: usize)
    requires
        tracks(s, hash, total_len, rem, rem_len),
    ensures
        rem_len < 4,
        s.digest() == avalanche(
            (hash ^ scramble(le_word(rem[0], rem[1], rem[2], rem[3]))) ^ total_len.wrapping_add(
                rem_len as u32,
            ),
        ),
{
    let n: int = s.bytes.len() as int / 4;
    lemma_length_word_step(n, rem_len as int);
    assert(4 * n + rem_len == s.bytes.len());
}

impl View for Murmur3 {
    type V = Stream;

    closed spec fn view(&self) -> Stream {
        Stream { seed: self.seed, bytes: self.written@ }
    }
}

impl Murmur3 {
    #[verifier::type_invariant]
    spec fn inv(self) -> bool {
        tracks(self@, self.hash, self.total_len, self.rem@, self.rem_len)
    }

    /// A fresh hasher for `seed`, to which nothing has been written.
    pub fn new(seed: u32) -> (h: Murmur3)
        ensures
            h@ == Stream::fresh(seed),
    {
        Murmur3 {
            rem: [0, 0, 0, 0],
            rem_len: 0,
            total_len: 0,
            hash: seed,
            seed,
            written: Ghost(Seq::empty()),
        }
    }
}

impl core::hash::Hasher for Murmur3 {
    /// Appends `bytes` to the stream.
    ///
    /// Any slice is accepted, the empty one too. How a stream is cut into
    /// writes does not matter: only the concatenation of what was written
    /// enters the hash.
    fn write(&mut self, bytes: &[u8])
        ensures
            final(self)@ == old(self)@.append(bytes@),
    {
        proof {
            use_type_invariant(&*self);
        }
        let ghost before: Stream = self@;
        let mut hash: u32 = self.hash;
        let mut total_len: u32 = self.total_len;
        let mut rem: [u8; 4] = self.rem;
        let mut rem_len: usize = self.rem_len;
        let mut i: usize = 0;
        assert(before.bytes + bytes@.take(0) =~= before.bytes);

        // Complete the pending word from the front of the input.
        while rem_len > 0 && i < bytes.len()
            invariant
                i <= bytes.len(),
                tracks(before.append(bytes@.take(i as int)), hash, total_len, rem@, rem_len),
            decreases bytes.len() - i,
        {
            let b: u8 = bytes[i];
            proof {
                let s = before.append(bytes@.take(i as int));
                let w = bytes@.subrange(i as int, i + 1);
                lemma_take_step(before, bytes@, i as int, i + 1);
                if rem_len < 3 {
                    lemma_push_pending(s, hash, total_len, rem@, rem_len, w);
                } else {
                    lemma_push_completing(s, hash, total_len, rem@, w);
                }
            }
            if rem_len < 3 {
                rem[rem_len] = b;
                rem_len += 1;
            } else {
                hash = compute_full_word(hash, word_from_le_bytes(rem[0], rem[1], rem[2], b));
                total_len = total_len.wrapping_add(4);
                rem = [0, 0, 0, 0];
                rem_len = 0;
            }
            i += 1;
        }

        // Fold the complete words of what is left.
        while bytes.len() - i >= 4
            invariant
                i <= bytes.len(),
                rem_len == 0 || i == bytes.len(),
                tracks(before.append(bytes@.take(i as int)), hash, total_len, rem@, rem_len),
            decreases bytes.len() - i,
        {
            let k: u32 = word_from_le_bytes(bytes[i], bytes[i + 1], bytes[i + 2], bytes[i + 3]);
            proof {
                let s = before.append(bytes@.take(i as int));
                let w = bytes@.subrange(i as int, i + 4);
                lemma_take_step(before, bytes@, i as int, i + 4);
                lemma_push_word(s, hash, total_len, rem@, w);
            }
            hash = compute_full_word(hash, k);
            total_len = total_len.wrapping_add(4);
            i += 4;
        }

        // Keep the 0 to 3 bytes that are left as the new pending tail.
        while i < bytes.len()
            invariant
                i <= bytes.len(),
                rem_len + (bytes.len() - i) < 4,
                tracks(before.append(bytes@.take(i as int)), hash, total_len, rem@, rem_len),
            decreases bytes.len() - i,
        {
            let b: u8 = bytes[i];
            proof {
                let s = before.append(bytes@.take(i as int));
                let w = bytes@.subrange(i as int, i + 1);
                lemma_take_step(before, bytes@, i as int, i + 1);
                lemma_push_pending(s, hash, total_len, rem@, rem_len, w);
            }
            rem[rem_len] = b;
            rem_len += 1;
            i += 1;
        }

        assert(bytes@.take(i as int) =~= bytes@);
        *self = Murmur3 {
            rem,
            rem_len,
            total_len,
            hash,
            seed: self.seed,
            written: Ghost(before.bytes + bytes@),
        };
    }

    /// The hash of everything written so far, widened to 64 bits.
    ///
    /// The hasher is left as it is: more may be written afterwards, and a
    /// second call without a write in between returns the same value.
    fn finish(&self) -> (r: u64)
        ensures
            r == self@.digest(),
    {
        proof {
            use_type_invariant(self);
            lemma_digest_of_state(self@, self.hash, self.total_len, self.rem@, self.rem_len);
        }
        let len: u32 = self.total_len.wrapping_add(self.rem_len as u32);
        let k: u32 = word_from_le_bytes(self.rem[0], self.rem[1], self.rem[2], self.rem[3]);
        let h: u32 = (self.hash ^ murmur_32_scramble(k)) ^ len;
        finalize(h) as u64
    }
}

} // verus!
