//! The generator and its operations.
//!
//! A generator is created from a seed, never by default, and changes only
//! when it is asked for output: by one step for each word of either width,
//! and by one step for every eight bytes, or part of them, of a buffer.

use crate::bits::{
    joined, lemma_fold_of_product, lemma_joined_bytes, lemma_product_fits, lemma_shifted_byte,
    lemma_truncation_is_low_half,
};
use crate::laws::{lemma_state_after_step, lemma_state_after_zero};
use crate::model::{
    advance, fold, le_value, low_half, state_after, stream_byte, stream_bytes, word_at, words_for,
    INCREMENT, MIX,
};
use crate::trusted::{handed, write_str};
use vstd::prelude::*;

verus! {

/// A WyRand pseudo-random number generator.
///
/// Fast and statistically solid, and not cryptographically secure: its output
/// must not be used for keys, passwords or tokens.
#[derive(PartialEq, Eq, Hash, Structural)]
pub struct WyRand {
    seed: u64,
}

impl View for WyRand {
    type V = u64;

    /// The state word.
    closed spec fn view(&self) -> u64 {
        self.seed
    }
}

impl Clone for WyRand {
    /// A second generator in the same state: from here on both put out the
    /// same stream.
    fn clone(&self) -> (copy: Self)
        ensures
            copy == *self,
    {
        WyRand { seed: self.seed }
    }
}

impl core::fmt::Debug for WyRand {
    /// Writes the name of the type and nothing else, so that the state
    /// cannot end up in a log. Where the sink reports an error, the error
    /// is handed on.
    fn fmt(&self, f: &mut core::fmt::Formatter<'_>) -> (outcome: core::fmt::Result)
        ensures
            outcome is Ok ==> handed(*final(f)) == handed(*old(f)) + self.debug_text(),
    {
        write_str(f, self.debug_str())
    }
}

impl WyRand {
    /// What `Debug` prints for this generator: the same for every state.
    pub open spec fn debug_text(&self) -> Seq<char> {
        "WyRand"@
    }

    /// The state word is all there is to a generator: two generators with
    /// the same state word are the same value.
    pub proof fn lemma_state_is_all(self, other: Self)
        requires
            self@ == other@,
        ensures
            self == other,
    {
    }

    /// The text that `Debug` prints.
    #[inline]
    pub fn debug_str(&self) -> (text: &'static str)
        ensures
            text@ == self.debug_text(),
    {
        "WyRand"
    }

    /// Creates a generator whose state word is `state`. Every value is
    /// accepted as it is, zero included.
    #[inline]
    pub fn seed_from_u64(state: u64) -> (rng: Self)
        ensures
            rng@ == state,
    {
        WyRand { seed: state }
    }

    /// Creates a generator from eight bytes, read as a 64-bit number with
    /// the least significant byte first.
    #[inline]
    pub fn from_seed(seed: [u8; 8]) -> (rng: Self)
        ensures
            rng@ == le_value(seed@),
    {
        let b0: u8 = seed[0];
        let b1: u8 = seed[1];
        let b2: u8 = seed[2];
        let b3: u8 = seed[3];
        let b4: u8 = seed[4];
        let b5: u8 = seed[5];
        let b6: u8 = seed[6];
        let b7: u8 = seed[7];
        let state: u64 = (b0 as u64) | (b1 as u64) << 8 | (b2 as u64) << 16 | (b3 as u64) << 24 | (
        b4 as u64) << 32 | (b5 as u64) << 40 | (b6 as u64) << 48 | (b7 as u64) << 56;
        proof {
            assert(state == joined(b0, b1, b2, b3, b4, b5, b6, b7));
            lemma_joined_bytes(b0, b1, b2, b3, b4, b5, b6, b7);
        }
        Self::seed_from_u64(state)
    }

    /// Creates a generator from the outcome of drawing one 64-bit word from
    /// another random source: the word becomes the state, and an error of
    /// the source is handed on as it is. The caller makes the draw, so any
    /// source will do.
    #[inline]
    pub fn from_rng(drawn: Result<u64, rand_core::Error>) -> (made: Result<Self, rand_core::Error>)
        ensures
            match drawn {
                Ok(word) => made matches Ok(rng) && rng@ == word,
                Err(error) => made == Err::<Self, rand_core::Error>(error),
            },
    {
        match drawn {
            Ok(word) => Ok(Self::seed_from_u64(word)),
            Err(error) => Err(error),
        }
    }

    /// The state word, for saving a generator; [`WyRand::seed_from_u64`]
    /// restores it.
    #[inline]
    pub fn state(&self) -> (word: u64)
        ensures
            word == self@,
    {
        self.seed
    }

    /// Advances the generator by one step and returns the word derived from
    /// the new state.
    #[inline]
    pub fn next_u64(&mut self) -> (word: u64)
        ensures
            final(self)@ == advance(old(self)@),
            word == fold(final(self)@),
    {
        self.seed = self.seed.wrapping_add(INCREMENT);
        let state: u64 = self.seed;
        let other: u64 = state ^ MIX;
        proof {
            lemma_product_fits(state, other);
        }
        let t: u128 = (state as u128) * (other as u128);
        let folded: u128 = (t >> 64) ^ t;
        proof {
            lemma_fold_of_product(t);
        }
        #[verifier::truncate]
        (folded as u64)
    }

    /// Advances the generator by one step and returns the lower 32 bits of
    /// the word that [`WyRand::next_u64`] would have returned.
    #[inline]
    pub fn next_u32(&mut self) -> (word: u32)
        ensures
            final(self)@ == advance(old(self)@),
            word == low_half(fold(final(self)@)),
    {
        let wide: u64 = self.next_u64();
        proof {
            lemma_truncation_is_low_half(wide);
        }
        #[verifier::truncate]
        (wide as u32)
    }

    /// Overwrites all of `dest` with the next bytes of the output stream.
    ///
    /// One word is drawn for every eight bytes, and one more for a shorter
    /// rest; each word is written least significant byte first, and of the
    /// last word only the bytes that still fit. An empty `dest` leaves the
    /// generator as it was.
    #[inline]
    pub fn fill_bytes(&mut self, dest: &mut [u8])
        ensures
            final(self)@ == state_after(old(self)@, words_for(old(dest)@.len())),
            final(dest)@ == stream_bytes(old(self)@, old(dest)@.len()),
    {
        let ghost start: u64 = self@;
        let n: usize = dest.len();
        let mut filled: usize = 0;
        proof {
            lemma_state_after_zero(start);
        }
        while filled < n
            invariant
                dest@.len() == n,
                filled <= n,
                filled % 8 == 0 || filled == n,
                self@ == state_after(start, words_for(filled as nat)),
                forall|i: int| 0 <= i < filled ==> dest@[i] == stream_byte(start, i as nat),
            decreases n - filled,
        {
            let ghost k: nat = (filled / 8) as nat;
            let ghost base: nat = filled as nat;
            proof {
                lemma_state_after_step(start, k);
            }
            let word: u64 = self.next_u64();
            let mut j: usize = 0;
            while j < 8 && filled < n
                invariant
                    dest@.len() == n,
                    base == 8 * k,
                    base < n,
                    j <= 8,
                    filled == base + j,
                    filled <= n,
                    word == word_at(start, k),
                    forall|i: int| 0 <= i < filled ==> dest@[i] == stream_byte(start, i as nat),
                decreases 8 - j,
            {
                let shift: u64 = 8 * (j as u64);
                proof {
                    lemma_shifted_byte(word, j as nat);
                }
                dest[filled] = #[verifier::truncate]
                ((word >> shift) as u8);
                filled += 1;
                j += 1;
            }
        }
        assert(dest@ =~= stream_bytes(start, n as nat));
    }

    /// Does what [`WyRand::fill_bytes`] does, and reports success: the
    /// generator has nothing that could fail.
    #[inline]
    pub fn try_fill_bytes(&mut self, dest: &mut [u8]) -> (outcome: Result<(), rand_core::Error>)
        ensures
            outcome is Ok,
            final(self)@ == state_after(old(self)@, words_for(old(dest)@.len())),
            final(dest)@ == stream_bytes(old(self)@, old(dest)@.len()),
    {
        self.fill_bytes(dest);
        Ok(())
    }
}

} // verus!
