//! Bit-level facts: how the shifts, ORs and truncating casts of the
//! executable code read as arithmetic.

use crate::model::{le_byte, low_half};
use vstd::bits::lemma_u64_shr_is_div;
use vstd::prelude::*;

verus! {

/// The product of two 64-bit words fits in 128 bits.
pub(crate) proof fn lemma_product_fits(a: u64, b: u64)
    ensures
        a * b <= 0xffff_ffff_ffff_fffe_0000_0000_0000_0001,
{
    assert(a * b <= 0xffff_ffff_ffff_ffff * 0xffff_ffff_ffff_ffff) by (nonlinear_arith)
        requires
            0 <= a <= 0xffff_ffff_ffff_ffff,
            0 <= b <= 0xffff_ffff_ffff_ffff,
    ;
}

/// Shifting a 128-bit number right by 64 bits, XORing the result with the
/// number and keeping the lower 64 bits XORs its upper half with its lower
/// half.
pub(crate) proof fn lemma_fold_of_product(t: u128)
    ensures
        (((t >> 64) ^ t) as u64) == ((t / 0x1_0000_0000_0000_0000) as u64) ^ ((t
            % 0x1_0000_0000_0000_0000) as u64),
        t / 0x1_0000_0000_0000_0000 <= 0xffff_ffff_ffff_ffff,
{
    assert((((t >> 64) ^ t) as u64) == ((t / 0x1_0000_0000_0000_0000) as u64) ^ ((t
        % 0x1_0000_0000_0000_0000) as u64)) by (bit_vector);
    assert(t / 0x1_0000_0000_0000_0000 <= 0xffff_ffff_ffff_ffff) by (bit_vector);
}

/// Cutting a word down to 32 bits keeps its lower half, which is also what
/// masking with `0xffff_ffff` keeps.
pub(crate) proof fn lemma_truncation_is_low_half(word: u64)
    ensures
        (word as u32) == low_half(word),
        low_half(word) == word & 0xffff_ffff,
{
    assert((word as u32) == (word % 0x1_0000_0000) as u32) by (bit_vector);
    assert((word % 0x1_0000_0000) as u32 == word & 0xffff_ffff) by (bit_vector);
}

/// Shifting a word right by `8 * j` bits and cutting it down to eight bits
/// gives its little-endian byte `j`.
pub(crate) proof fn lemma_shifted_byte(word: u64, j: nat)
    requires
        j < 8,
    ensures
        ((word >> ((8 * j) as u64)) as u8) == le_byte(word, j),
{
    let shift: u64 = (8 * j) as u64;
    let shifted: u64 = word >> shift;
    lemma_u64_shr_is_div(word, shift);
    assert((shifted as u8) == (shifted % 256) as u8) by (bit_vector);
}

/// Eight bytes joined into a word by shifts and ORs, the first byte lowest.
pub(crate) open spec fn joined(
    b0: u8,
    b1: u8,
    b2: u8,
    b3: u8,
    b4: u8,
    b5: u8,
    b6: u8,
    b7: u8,
) -> u64 {
    (b0 as u64) | (b1 as u64) << 8 | (b2 as u64) << 16 | (b3 as u64) << 24 | (b4 as u64) << 32 | (
    b5 as u64) << 40 | (b6 as u64) << 48 | (b7 as u64) << 56
}

/// Eight joined bytes make the number that they encode least significant
/// byte first.
pub(crate) proof fn lemma_joined_bytes(
    b0: u8,
    b1: u8,
    b2: u8,
    b3: u8,
    b4: u8,
    b5: u8,
    b6: u8,
    b7: u8,
)
    ensures
        joined(b0, b1, b2, b3, b4, b5, b6, b7) == b0 + b1 * 0x100 + b2 * 0x1_0000 + b3
            * 0x100_0000 + b4 * 0x1_0000_0000 + b5 * 0x100_0000_0000 + b6 * 0x1_0000_0000_0000
            + b7 * 0x100_0000_0000_0000,
{
    assert(joined(b0, b1, b2, b3, b4, b5, b6, b7) == b0 + b1 * 0x100 + b2 * 0x1_0000 + b3
        * 0x100_0000 + b4 * 0x1_0000_0000 + b5 * 0x100_0000_0000 + b6 * 0x1_0000_0000_0000 + b7
        * 0x100_0000_0000_0000) by (bit_vector);
}

/// Each of eight joined bytes is found again by shifting the word right and
/// cutting it down to eight bits.
pub(crate) proof fn lemma_joined_bytes_split(
    b0: u8,
    b1: u8,
    b2: u8,
    b3: u8,
    b4: u8,
    b5: u8,
    b6: u8,
    b7: u8,
)
    ensures
        (joined(b0, b1, b2, b3, b4, b5, b6, b7) as u8) == b0,
        ((joined(b0, b1, b2, b3, b4, b5, b6, b7) >> 8) as u8) == b1,
        ((joined(b0, b1, b2, b3, b4, b5, b6, b7) >> 16) as u8) == b2,
        ((joined(b0, b1, b2, b3, b4, b5, b6, b7) >> 24) as u8) == b3,
        ((joined(b0, b1, b2, b3, b4, b5, b6, b7) >> 32) as u8) == b4,
        ((joined(b0, b1, b2, b3, b4, b5, b6, b7) >> 40) as u8) == b5,
        ((joined(b0, b1, b2, b3, b4, b5, b6, b7) >> 48) as u8) == b6,
        ((joined(b0, b1, b2, b3, b4, b5, b6, b7) >> 56) as u8) == b7,
{
    let word: u64 = joined(b0, b1, b2, b3, b4, b5, b6, b7);
    assert((word as u8) == b0 && ((word >> 8) as u8) == b1 && ((word >> 16) as u8) == b2 && ((word
        >> 24) as u8) == b3 && ((word >> 32) as u8) == b4 && ((word >> 40) as u8) == b5 && ((word
        >> 48) as u8) == b6 && ((word >> 56) as u8) == b7) by (bit_vector)
        requires
            word == joined(b0, b1, b2, b3, b4, b5, b6, b7),
    ;
}

/// Masking a shifted word with `0xff` before cutting it down to eight bits
/// changes nothing.
pub(crate) proof fn lemma_mask_is_idle(word: u64)
    ensures
        ((word & 0xff) as u8) == (word as u8),
        (((word >> 8) & 0xff) as u8) == ((word >> 8) as u8),
        (((word >> 16) & 0xff) as u8) == ((word >> 16) as u8),
        (((word >> 24) & 0xff) as u8) == ((word >> 24) as u8),
        (((word >> 32) & 0xff) as u8) == ((word >> 32) as u8),
        (((word >> 40) & 0xff) as u8) == ((word >> 40) as u8),
        (((word >> 48) & 0xff) as u8) == ((word >> 48) as u8),
        (((word >> 56) & 0xff) as u8) == ((word >> 56) as u8),
{
    assert(((word & 0xff) as u8) == (word as u8) && (((word >> 8) & 0xff) as u8) == ((word >> 8)
        as u8) && (((word >> 16) & 0xff) as u8) == ((word >> 16) as u8) && (((word >> 24)
        & 0xff) as u8) == ((word >> 24) as u8) && (((word >> 32) & 0xff) as u8) == ((word >> 32)
        as u8) && (((word >> 40) & 0xff) as u8) == ((word >> 40) as u8) && (((word >> 48)
        & 0xff) as u8) == ((word >> 48) as u8) && (((word >> 56) & 0xff) as u8) == ((word >> 56)
        as u8)) by (bit_vector);
}

/// A word is the sum of its bytes, each weighted by its place.
pub(crate) proof fn lemma_split_bytes(word: u64)
    ensures
        (word as u8) + ((word >> 8) as u8) * 0x100 + ((word >> 16) as u8) * 0x1_0000 + ((word
            >> 24) as u8) * 0x100_0000 + ((word >> 32) as u8) * 0x1_0000_0000 + ((word >> 40) as u8)
            * 0x100_0000_0000 + ((word >> 48) as u8) * 0x1_0000_0000_0000 + ((word >> 56) as u8)
            * 0x100_0000_0000_0000 == word,
{
    assert((word as u8) + ((word >> 8) as u8) * 0x100 + ((word >> 16) as u8) * 0x1_0000 + ((word
        >> 24) as u8) * 0x100_0000 + ((word >> 32) as u8) * 0x1_0000_0000 + ((word >> 40) as u8)
        * 0x100_0000_0000 + ((word >> 48) as u8) * 0x1_0000_0000_0000 + ((word >> 56) as u8)
        * 0x100_0000_0000_0000 == word) by (bit_vector);
}

} // verus!
