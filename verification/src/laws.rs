//! Laws of the generator, proved over the model.
//!
//! The contracts of the executable code say what one call does. The laws
//! here say what follows for any number of calls: that the stream depends on
//! nothing but the state, that only the number of steps counts, how words of
//! both widths and bytes lie in one stream, and how seeds and states
//! correspond.

use crate::bits::{
    joined, lemma_joined_bytes, lemma_joined_bytes_split, lemma_mask_is_idle, lemma_shifted_byte,
    lemma_split_bytes, lemma_truncation_is_low_half,
};
use crate::generator::WyRand;
use crate::model::{
    advance, le_bytes, le_value, low_half, outcome_of_call, outcomes_of_calls, state_after,
    state_after_call, state_after_calls, stream_bytes, word_at, word_modulus, words_drawn,
    words_drawn_by, words_for, Call, Outcome, INCREMENT,
};
use vstd::arithmetic::div_mod::{lemma_add_mod_noop, lemma_mod_twice};
use vstd::bytes::{
    lemma_auto_spec_u64_to_from_le_bytes, spec_u64_from_le_bytes, spec_u64_to_le_bytes,
    spec_u64_to_le_bytes_to_open,
};
use vstd::prelude::*;

verus! {

// Steps.

/// No step leaves the state as it is.
pub proof fn lemma_state_after_zero(state: u64)
    ensures
        state_after(state, 0) == state,
{
}

/// A single step is `advance`.
pub proof fn lemma_state_after_one(state: u64)
    ensures
        state_after(state, 1) == advance(state),
{
}

/// Steps add up: `n` steps after `m` steps are `m + n` steps.
pub proof fn lemma_state_after_add(state: u64, m: nat, n: nat)
    ensures
        state_after(state_after(state, m), n) == state_after(state, m + n),
{
    let modulus: int = word_modulus();
    let a: int = state + m * INCREMENT;
    let b: int = n * INCREMENT;
    assert(state + (m + n) * INCREMENT == a + b) by (nonlinear_arith)
        requires
            a == state + m * INCREMENT,
            b == n * INCREMENT,
    ;
    lemma_add_mod_noop(a, b, modulus);
    lemma_add_mod_noop(a % modulus, b, modulus);
    lemma_mod_twice(a, modulus);
}

/// One more step after `n` steps is `n + 1` steps.
pub proof fn lemma_state_after_step(state: u64, n: nat)
    ensures
        advance(state_after(state, n)) == state_after(state, n + 1),
{
    lemma_state_after_add(state, n, 1);
    lemma_state_after_one(state_after(state, n));
}

// Runs of requests.

/// The state after a run of requests depends only on how many steps they
/// take together.
pub proof fn lemma_calls_count_steps(state: u64, calls: Seq<Call>)
    ensures
        state_after_calls(state, calls) == state_after(state, words_drawn_by(calls)),
    decreases calls.len(),
{
    if calls.len() == 0 {
        lemma_state_after_zero(state);
    } else {
        let before: Seq<Call> = calls.drop_last();
        lemma_calls_count_steps(state, before);
        lemma_state_after_add(state, words_drawn_by(before), words_drawn(calls.last()));
        lemma_state_after_one(state_after(state, words_drawn_by(before)));
    }
}

/// What request `i` of a run hands back is what a generator hands back on
/// it that was moved on from `state` by the steps of the requests before.
pub proof fn lemma_outcome_at_position(state: u64, calls: Seq<Call>, i: int)
    requires
        0 <= i < calls.len(),
    ensures
        outcomes_of_calls(state, calls)[i] == outcome_of_call(
            state_after(state, words_drawn_by(calls.take(i))),
            calls[i],
        ),
{
    lemma_calls_count_steps(state, calls.take(i));
}

/// Determinism: two generators in the same state hand back the same on
/// every run of requests, and end in the same state.
pub proof fn lemma_same_state_same_outcomes(a: WyRand, b: WyRand, calls: Seq<Call>)
    requires
        a@ == b@,
    ensures
        outcomes_of_calls(a@, calls) == outcomes_of_calls(b@, calls),
        state_after_calls(a@, calls) == state_after_calls(b@, calls),
{
}

/// Saving and restoring: a generator made from the saved state word of
/// another is that generator over again, so it goes on with the same stream.
pub proof fn lemma_restored_is_same(saved: WyRand, restored: WyRand, calls: Seq<Call>)
    requires
        restored@ == saved@,
    ensures
        restored == saved,
        outcomes_of_calls(restored@, calls) == outcomes_of_calls(saved@, calls),
{
    restored.lemma_state_is_all(saved);
}

// Words.

/// A 32-bit request takes the same single step as a 64-bit request and hands
/// back the lower 32 bits of the word that the 64-bit request hands back.
pub proof fn lemma_next_u32_truncates_next_u64(state: u64)
    ensures
        state_after_call(state, Call::NextU32) == state_after_call(state, Call::NextU64),
        outcome_of_call(state, Call::NextU64) == Outcome::Word64(word_at(state, 0)),
        outcome_of_call(state, Call::NextU32) == Outcome::Word32(low_half(word_at(state, 0))),
        low_half(word_at(state, 0)) == word_at(state, 0) & 0xffff_ffff,
{
    lemma_state_after_one(state);
    lemma_truncation_is_low_half(word_at(state, 0));
}

// Bytes.

/// Filling no bytes takes no step, leaves the state as it is and hands back
/// nothing.
pub proof fn lemma_fill_nothing(state: u64)
    ensures
        words_for(0) == 0,
        state_after_call(state, Call::FillBytes(0)) == state,
        stream_bytes(state, 0) == Seq::<u8>::empty(),
{
    lemma_state_after_zero(state);
    assert(stream_bytes(state, 0) =~= Seq::<u8>::empty());
}

/// The number of steps that `n` bytes take is the least number of words
/// that hold them.
pub proof fn lemma_words_for_is_ceiling(n: nat)
    ensures
        8 * words_for(n) >= n,
        n > 0 ==> 8 * (words_for(n) - 1) < n,
{
}

/// In the byte stream the words follow one another, each laid out least
/// significant byte first: bytes `8 * k` to `8 * k + 7` are word `k`.
pub proof fn lemma_stream_is_words_in_order(state: u64, k: nat, n: nat)
    requires
        8 * (k + 1) <= n,
    ensures
        stream_bytes(state, n).subrange(8 * k as int, 8 * k as int + 8) == le_bytes(
            word_at(state, k),
        ),
{
    let chunk: Seq<u8> = stream_bytes(state, n).subrange(8 * k as int, 8 * k as int + 8);
    assert(chunk =~= le_bytes(word_at(state, k)));
}

/// A shorter fill hands back the beginning of a longer one: of the last
/// word only the bytes that were not asked for are lost.
pub proof fn lemma_stream_prefix(state: u64, m: nat, n: nat)
    requires
        m <= n,
    ensures
        stream_bytes(state, n).take(m as int) == stream_bytes(state, m),
{
    assert(stream_bytes(state, n).take(m as int) =~= stream_bytes(state, m));
}

// Seeds.

/// The little-endian bytes of a word are the eight truncated shifts of it.
proof fn lemma_bytes_by_shifts(word: u64)
    ensures
        le_bytes(word)[0] == (word as u8),
        le_bytes(word)[1] == ((word >> 8) as u8),
        le_bytes(word)[2] == ((word >> 16) as u8),
        le_bytes(word)[3] == ((word >> 24) as u8),
        le_bytes(word)[4] == ((word >> 32) as u8),
        le_bytes(word)[5] == ((word >> 40) as u8),
        le_bytes(word)[6] == ((word >> 48) as u8),
        le_bytes(word)[7] == ((word >> 56) as u8),
{
    lemma_shifted_byte(word, 0);
    lemma_shifted_byte(word, 1);
    lemma_shifted_byte(word, 2);
    lemma_shifted_byte(word, 3);
    lemma_shifted_byte(word, 4);
    lemma_shifted_byte(word, 5);
    lemma_shifted_byte(word, 6);
    lemma_shifted_byte(word, 7);
    assert(word >> 0 == word) by (bit_vector);
}

/// A word is the number that its eight little-endian bytes encode.
pub proof fn lemma_le_bytes_round_trip(word: u64)
    ensures
        le_bytes(word).len() == 8,
        le_value(le_bytes(word)) == word,
{
    lemma_bytes_by_shifts(word);
    lemma_split_bytes(word);
}

/// Eight bytes are the little-endian bytes of the number that they encode,
/// and that number is a 64-bit word: every byte seed names one state, and
/// no two name the same.
pub proof fn lemma_le_value_round_trip(bytes: Seq<u8>)
    requires
        bytes.len() == 8,
    ensures
        0 <= le_value(bytes) < word_modulus(),
        le_bytes(le_value(bytes) as u64) == bytes,
{
    let word: u64 = joined(
        bytes[0],
        bytes[1],
        bytes[2],
        bytes[3],
        bytes[4],
        bytes[5],
        bytes[6],
        bytes[7],
    );
    lemma_joined_bytes(
        bytes[0],
        bytes[1],
        bytes[2],
        bytes[3],
        bytes[4],
        bytes[5],
        bytes[6],
        bytes[7],
    );
    lemma_joined_bytes_split(
        bytes[0],
        bytes[1],
        bytes[2],
        bytes[3],
        bytes[4],
        bytes[5],
        bytes[6],
        bytes[7],
    );
    lemma_bytes_by_shifts(word);
    assert(le_bytes(word) =~= bytes);
}

/// Seed round trip: a generator made from the eight little-endian bytes of
/// a word is the generator made from the word itself.
pub proof fn lemma_seed_round_trip(word: u64, from_bytes: WyRand, from_word: WyRand)
    requires
        from_bytes@ == le_value(le_bytes(word)),
        from_word@ == word,
    ensures
        from_bytes == from_word,
{
    lemma_le_bytes_round_trip(word);
    from_bytes.lemma_state_is_all(from_word);
}

/// The little-endian reading of this library is that of vstd, both ways.
pub proof fn lemma_le_is_that_of_vstd(word: u64, bytes: Seq<u8>)
    requires
        bytes.len() == 8,
    ensures
        le_bytes(word) == spec_u64_to_le_bytes(word),
        le_value(bytes) == spec_u64_from_le_bytes(bytes),
{
    lemma_auto_spec_u64_to_from_le_bytes();
    lemma_le_bytes_are_those_of_vstd(word);
    let value: u64 = le_value(bytes) as u64;
    lemma_le_value_round_trip(bytes);
    lemma_le_bytes_are_those_of_vstd(value);
    assert(spec_u64_from_le_bytes(spec_u64_to_le_bytes(value)) == value);
}

/// The little-endian bytes of a word are what vstd says they are.
proof fn lemma_le_bytes_are_those_of_vstd(word: u64)
    ensures
        le_bytes(word) == spec_u64_to_le_bytes(word),
{
    spec_u64_to_le_bytes_to_open(word);
    lemma_bytes_by_shifts(word);
    lemma_mask_is_idle(word);
    assert(le_bytes(word) =~= spec_u64_to_le_bytes(word));
}

// Debug.

/// Opacity: what `Debug` prints is the same for every two generators,
/// whatever their states, and so is what a sink holds after either was
/// written behind the same text.
pub proof fn lemma_debug_text_hides_state(a: WyRand, b: WyRand, before: Seq<char>)
    ensures
        a.debug_text() == b.debug_text(),
        before + a.debug_text() == before + b.debug_text(),
{
}

} // verus!
