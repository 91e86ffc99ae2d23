//! The game's random numbers: the word stream of a ChaCha8 generator seeded
//! from a number. A source is a seed and a position in that seed's stream,
//! so the same seed always gives the same numbers.
use vstd::prelude::*;

use rand_chacha::ChaCha8Rng;

verus! {

/// The 32-bit word at position `word_pos` of the stream of the ChaCha8
/// generator that `seed_from_u64(seed)` makes.
pub uninterp spec fn chacha8_word(seed: u64, word_pos: u128) -> u32;

/// `<ChaCha8Rng as rand::SeedableRng>::seed_from_u64(seed)`, moved to word
/// `word_pos` of its stream by `set_word_pos`, then `RngCore::next_u32`: the
/// word at that position. `rand_core` documents a seeded generator as giving
/// the same output on every run, version and machine, so the word is a
/// function of the seed and the position, named `chacha8_word`. The ChaCha
/// algorithm itself is not restated.
#[verifier::external_body]
fn chacha8_word_at(seed: u64, word_pos: u128) -> (w: u32)
    ensures
        w == chacha8_word(seed, word_pos),
{
    let mut rng = <ChaCha8Rng as rand::SeedableRng>::seed_from_u64(seed);
    rng.set_word_pos(word_pos);
    rand::RngCore::next_u32(&mut rng)
}

/// The game's random number source: the seed of its ChaCha8 stream and the
/// position of the next word to draw.
#[derive(Debug, Clone, Copy, PartialEq, Eq, Structural)]
pub struct RandomState {
    pub seed: u64,
    pub word_pos: u128,
}

/// The `k` words a source gives from state `s`, drawn one after another.
pub open spec fn words_from(s: RandomState, k: nat) -> Seq<u32> {
    Seq::new(k, |i: int| chacha8_word(s.seed, (s.word_pos + i) as u128))
}

impl RandomState {
    /// A source at the start of the stream seeded from `seed`.
    pub fn new(seed: usize) -> (r: Self)
        ensures
            r.seed == seed as u64,
            r.word_pos == 0,
    {
        RandomState { seed: seed as u64, word_pos: 0 }
    }

    /// The next 32 random bits: the word at the source's position in its
    /// seed's stream; the source moves on by one word.
    pub fn next_u32(&mut self) -> (w: u32)
        requires
            old(self).word_pos < u128::MAX,
        ensures
            w == chacha8_word(old(self).seed, old(self).word_pos),
            final(self).seed == old(self).seed,
            final(self).word_pos == old(self).word_pos + 1,
    {
        let w = chacha8_word_at(self.seed, self.word_pos);
        self.word_pos = self.word_pos + 1;
        w
    }
}

/// Reproducibility: two sources made from the same seed stand at the same
/// place, and from the same place they give the same words.
pub proof fn lemma_same_seed_same_words(a: RandomState, b: RandomState, k: nat)
    requires
        a.seed == b.seed,
        a.word_pos == b.word_pos,
    ensures
        a == b,
        words_from(a, k) == words_from(b, k),
{
}

/// Drawing a word gives the first of the words from a state, and leaves the
/// rest to come.
pub proof fn lemma_draw_then_rest(s: RandomState, k: nat)
    requires
        s.word_pos < u128::MAX,
    ensures
        words_from(s, k + 1) == seq![chacha8_word(s.seed, s.word_pos)] + words_from(
            RandomState { seed: s.seed, word_pos: (s.word_pos + 1) as u128 },
            k,
        ),
{
    let t = RandomState { seed: s.seed, word_pos: (s.word_pos + 1) as u128 };
    assert(words_from(s, k + 1) =~= seq![chacha8_word(s.seed, s.word_pos)] + words_from(t, k));
}

} // verus!
