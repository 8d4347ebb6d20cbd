//! What holds of every stream, whatever is written and however it is cut.

use vstd::prelude::*;
use crate::builder::BuildMurmur;
use crate::model::{
    avalanche, fold_word, fold_words, length_word, scramble, word_at, Stream, AVALANCHE_1,
    AVALANCHE_2, ROUND_ADD,
};

verus! {

/// The inverse of `AVALANCHE_1` modulo 2^32.
const AVALANCHE_1_INVERSE: u32 = 0xa5cb9243;

/// The inverse of `AVALANCHE_2` modulo 2^32.
const AVALANCHE_2_INVERSE: u32 = 0x7ed1b41d;

/// Chunking invariance: writing the chunks of a byte sequence one after
/// another, in order, leaves the same stream as writing the whole sequence
/// at once, and therefore the same hash, however the sequence is cut.
pub proof fn lemma_chunking_invariance(s: Stream, whole: Seq<u8>, chunks: Seq<Seq<u8>>)
    requires
        chunks.flatten() == whole,
    ensures
        s.append_all(chunks) == s.append(whole),
        s.append_all(chunks).digest() == s.append(whole).digest(),
    decreases chunks.len(),
{
    chunks.lemma_flatten_and_flatten_alt_are_equivalent();
    if chunks.len() == 0 {
        assert(s.bytes + whole =~= s.bytes);
    } else {
        let front: Seq<Seq<u8>> = chunks.drop_last();
        front.lemma_flatten_and_flatten_alt_are_equivalent();
        lemma_chunking_invariance(s, front.flatten(), front);
        assert((s.bytes + front.flatten()) + chunks.last() =~= s.bytes + whole);
    }
}

/// Determinism under a fixed seed: hashers built by two builders with
/// equal seeds, once the same bytes are written to both, give equal
/// hashes.
pub proof fn lemma_equal_seeds_equal_digests(a: BuildMurmur, b: BuildMurmur, bytes: Seq<u8>)
    requires
        a@ == b@,
    ensures
        Stream::fresh(a@).append(bytes).digest() == Stream::fresh(b@).append(bytes).digest(),
{
}

/// Two ways of cutting the same bytes into writes give equal hashes when
/// the hashers start from equal seeds.
pub proof fn lemma_equal_seeds_any_chunking(
    a: BuildMurmur,
    b: BuildMurmur,
    chunks_a: Seq<Seq<u8>>,
    chunks_b: Seq<Seq<u8>>,
)
    requires
        a@ == b@,
        chunks_a.flatten() == chunks_b.flatten(),
    ensures
        Stream::fresh(a@).append_all(chunks_a).digest() == Stream::fresh(b@).append_all(
            chunks_b,
        ).digest(),
{
    lemma_chunking_invariance(Stream::fresh(a@), chunks_a.flatten(), chunks_a);
    lemma_chunking_invariance(Stream::fresh(b@), chunks_b.flatten(), chunks_b);
}

/// A round loses nothing of the accumulator: with the same word folded in,
/// different accumulators stay different.
pub proof fn lemma_fold_word_injective(h1: u32, h2: u32, k: u32)
    requires
        fold_word(h1, k) == fold_word(h2, k),
    ensures
        h1 == h2,
{
    reveal(fold_word);
    let c: u32 = scramble(k);
    assert((((h1 ^ c) << 13) | ((h1 ^ c) >> 19)).wrapping_mul(5).wrapping_add(ROUND_ADD) == (((h2
        ^ c) << 13) | ((h2 ^ c) >> 19)).wrapping_mul(5).wrapping_add(ROUND_ADD) ==> h1 == h2)
        by (bit_vector);
}

/// Folding the same words into different accumulators leaves different
/// accumulators.
pub proof fn lemma_fold_words_injective(h1: u32, h2: u32, bytes: Seq<u8>, n: nat)
    requires
        fold_words(h1, bytes, n) == fold_words(h2, bytes, n),
    ensures
        h1 == h2,
    decreases n,
{
    if n > 0 {
        let m: nat = (n - 1) as nat;
        lemma_fold_word_injective(
            fold_words(h1, bytes, m),
            fold_words(h2, bytes, m),
            word_at(bytes, n - 1),
        );
        lemma_fold_words_injective(h1, h2, bytes, m);
    }
}

/// The avalanche is one-to-one: each of its five steps can be undone, the
/// two multiplications by the inverses of their odd factors modulo 2^32.
pub proof fn lemma_avalanche_injective(a: u32, b: u32)
    requires
        avalanche(a) == avalanche(b),
    ensures
        a == b,
{
    reveal(avalanche);
    let a1: u32 = a ^ (a >> 16);
    let a2: u32 = a1.wrapping_mul(AVALANCHE_1);
    let a3: u32 = a2 ^ (a2 >> 13);
    let a4: u32 = a3.wrapping_mul(AVALANCHE_2);
    let b1: u32 = b ^ (b >> 16);
    let b2: u32 = b1.wrapping_mul(AVALANCHE_1);
    let b3: u32 = b2 ^ (b2 >> 13);
    let b4: u32 = b3.wrapping_mul(AVALANCHE_2);
    assert(a4 ^ (a4 >> 16) == b4 ^ (b4 >> 16) ==> a4 == b4) by (bit_vector);
    assert(a3.wrapping_mul(AVALANCHE_2).wrapping_mul(AVALANCHE_2_INVERSE) == a3) by (bit_vector);
    assert(b3.wrapping_mul(AVALANCHE_2).wrapping_mul(AVALANCHE_2_INVERSE) == b3) by (bit_vector);
    assert(a2 ^ (a2 >> 13) == b2 ^ (b2 >> 13) ==> a2 == b2) by (bit_vector);
    assert(a1.wrapping_mul(AVALANCHE_1).wrapping_mul(AVALANCHE_1_INVERSE) == a1) by (bit_vector);
    assert(b1.wrapping_mul(AVALANCHE_1).wrapping_mul(AVALANCHE_1_INVERSE) == b1) by (bit_vector);
    assert(a ^ (a >> 16) == b ^ (b >> 16) ==> a == b) by (bit_vector);
}

/// Seed sensitivity: over the same bytes, streams with different seeds have
/// different hashes.
///
/// For every byte sequence the hash is a one-to-one function of the seed.
/// Two seeds drawn independently and uniformly therefore give equal hashes
/// exactly when the seeds are equal, which happens with probability 2^-32.
pub proof fn lemma_distinct_seeds_distinct_digests(a: Stream, b: Stream)
    requires
        a.bytes == b.bytes,
        a.seed != b.seed,
    ensures
        a.digest() != b.digest(),
{
    let n: nat = a.bytes.len() / 4;
    let ha: u32 = fold_words(a.seed, a.bytes, n);
    let hb: u32 = fold_words(b.seed, a.bytes, n);
    let t: u32 = scramble(word_at(a.bytes, n as int));
    let l: u32 = length_word(a.bytes.len());
    if a.digest() == b.digest() {
        lemma_avalanche_injective((ha ^ t) ^ l, (hb ^ t) ^ l);
        assert((ha ^ t) ^ l == (hb ^ t) ^ l ==> ha == hb) by (bit_vector);
        lemma_fold_words_injective(a.seed, b.seed, a.bytes, n);
    }
}

} // verus!
