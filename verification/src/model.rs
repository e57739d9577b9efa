//! The mathematical model of the generator.
//!
//! A WyRand generator is a single 64-bit state word, and every word is a
//! valid state. One step adds a fixed odd constant to the state, modulo
//! 2^64, and derives the output word from the new state by folding the two
//! halves of a full 128-bit product. The functions here say what the state
//! and the outputs are after any number of steps; the contracts of the
//! executable code are written over them.

use vstd::arithmetic::power2::pow2;
use vstd::prelude::*;

verus! {

/// The constant added to the state word on every step.
pub const INCREMENT: u64 = 0xa076_1d64_78bd_642f;

/// The constant XORed into the state to form the second factor of the product.
pub const MIX: u64 = 0xe703_7ed1_a0b4_28db;

/// 2^64, the number of distinct state words.
pub open spec fn word_modulus() -> int {
    0x1_0000_0000_0000_0000
}

/// The state that follows `state`: the sum with [`INCREMENT`], reduced modulo 2^64.
pub open spec fn advance(state: u64) -> u64 {
    ((state + INCREMENT) % word_modulus()) as u64
}

/// The state reached from `state` by `n` steps.
pub open spec fn state_after(state: u64, n: nat) -> u64 {
    ((state + n * INCREMENT) % word_modulus()) as u64
}

/// The full product of `state` and `state ^ MIX`, a number below 2^128.
pub open spec fn wide_product(state: u64) -> int {
    state * (state ^ MIX)
}

/// The word derived from a state: the upper 64 bits of the wide product
/// XORed with its lower 64 bits.
pub open spec fn fold(state: u64) -> u64 {
    let t: int = wide_product(state);
    ((t / word_modulus()) as u64) ^ ((t % word_modulus()) as u64)
}

/// The `k`-th 64-bit word, counting from zero, that a generator in `state` puts out.
pub open spec fn word_at(state: u64, k: nat) -> u64 {
    fold(state_after(state, k + 1))
}

/// The lower 32 bits of a word.
pub open spec fn low_half(word: u64) -> u32 {
    (word % 0x1_0000_0000) as u32
}

/// Byte `j` of `word` in little-endian order: byte 0 is the least significant.
pub open spec fn le_byte(word: u64, j: nat) -> u8 {
    ((word as nat / pow2(8 * j)) % 256) as u8
}

/// The eight bytes of `word`, least significant first.
pub open spec fn le_bytes(word: u64) -> Seq<u8> {
    Seq::new(8, |j: int| le_byte(word, j as nat))
}

/// The number that eight bytes encode when read least significant byte first.
pub open spec fn le_value(bytes: Seq<u8>) -> int
    recommends
        bytes.len() == 8,
{
    bytes[0] + bytes[1] * 0x100 + bytes[2] * 0x1_0000 + bytes[3] * 0x100_0000 + bytes[4]
        * 0x1_0000_0000 + bytes[5] * 0x100_0000_0000 + bytes[6] * 0x1_0000_0000_0000 + bytes[7]
        * 0x100_0000_0000_0000
}

/// How many 64-bit words it takes to cover `n` bytes: `n / 8`, rounded up.
pub open spec fn words_for(n: nat) -> nat {
    (n + 7) / 8
}

/// Byte `i` of the output stream of a generator in `state`: the words in the
/// order they are produced, each laid out least significant byte first.
pub open spec fn stream_byte(state: u64, i: nat) -> u8 {
    le_byte(word_at(state, i / 8), i % 8)
}

/// The first `n` bytes of the output stream of a generator in `state`.
pub open spec fn stream_bytes(state: u64, n: nat) -> Seq<u8> {
    Seq::new(n, |i: int| stream_byte(state, i as nat))
}

/// One request to a generator.
pub enum Call {
    /// A 32-bit word.
    NextU32,
    /// A 64-bit word.
    NextU64,
    /// That many bytes.
    FillBytes(nat),
}

/// What a request hands back.
pub enum Outcome {
    /// The answer to [`Call::NextU32`].
    Word32(u32),
    /// The answer to [`Call::NextU64`].
    Word64(u64),
    /// The answer to [`Call::FillBytes`]: what the buffer holds afterwards.
    Bytes(Seq<u8>),
}

/// How many steps a request takes: one for a word of either width, and one
/// for every eight bytes or part of them.
pub open spec fn words_drawn(call: Call) -> nat {
    match call {
        Call::NextU32 => 1,
        Call::NextU64 => 1,
        Call::FillBytes(n) => words_for(n),
    }
}

/// The state in which a request leaves a generator that was in `state`.
pub open spec fn state_after_call(state: u64, call: Call) -> u64 {
    match call {
        Call::NextU32 => advance(state),
        Call::NextU64 => advance(state),
        Call::FillBytes(n) => state_after(state, words_for(n)),
    }
}

/// What a generator in `state` hands back on a request.
pub open spec fn outcome_of_call(state: u64, call: Call) -> Outcome {
    match call {
        Call::NextU32 => Outcome::Word32(low_half(fold(advance(state)))),
        Call::NextU64 => Outcome::Word64(fold(advance(state))),
        Call::FillBytes(n) => Outcome::Bytes(stream_bytes(state, n)),
    }
}

/// The state of a generator that started in `state` and served `calls` in order.
pub open spec fn state_after_calls(state: u64, calls: Seq<Call>) -> u64
    decreases calls.len(),
{
    if calls.len() == 0 {
        state
    } else {
        state_after_call(state_after_calls(state, calls.drop_last()), calls.last())
    }
}

/// What a generator that started in `state` hands back on each of `calls`,
/// served in order.
pub open spec fn outcomes_of_calls(state: u64, calls: Seq<Call>) -> Seq<Outcome> {
    Seq::new(
        calls.len(),
        |i: int| outcome_of_call(state_after_calls(state, calls.take(i)), calls[i]),
    )
}

/// The steps that `calls` take together.
pub open spec fn words_drawn_by(calls: Seq<Call>) -> nat
    decreases calls.len(),
{
    if calls.len() == 0 {
        0
    } else {
        words_drawn_by(calls.drop_last()) + words_drawn(calls.last())
    }
}

} // verus!
