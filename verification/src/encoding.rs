//! Two's-complement truncation, and the split of a 16-bit word into its two
//! cells and back.

use vstd::prelude::*;

verus! {

/// The signed 8-bit value that agrees with `value` modulo 256: what is left
/// of `value` when only its low eight bits are kept.
pub open spec fn wrap_byte(value: int) -> i8 {
    let low = value % 256;
    if low < 128 {
        low as i8
    } else {
        (low - 256) as i8
    }
}

/// The signed 16-bit value that agrees with `value` modulo 65536: what is
/// left of `value` when only its low sixteen bits are kept.
pub open spec fn wrap_word(value: int) -> i16 {
    let low = value % 65536;
    if low < 32768 {
        low as i16
    } else {
        (low - 65536) as i16
    }
}

/// The most significant byte of a word, as a signed cell: the word divided
/// by 256 and rounded down.
pub open spec fn high_byte(word: i16) -> i8 {
    (word as int / 256) as i8
}

/// The least significant byte of a word, as a signed cell: the low eight
/// bits of the word.
pub open spec fn low_byte(word: i16) -> i8 {
    wrap_byte(word as int)
}

/// The word whose most significant byte is `high` and whose least
/// significant byte is `low`. The low cell counts as the unsigned byte with
/// the same bits, so that only `high` decides the sign.
pub open spec fn join_bytes(high: i8, low: i8) -> i16 {
    (high as int * 256 + low as int % 256) as i16
}

/// Truncation leaves a value alone that already fits: a signed byte is its
/// own low eight bits, a signed word its own low sixteen.
pub proof fn lemma_wrap_in_range(value: int)
    ensures
        -128 <= value <= 127 ==> wrap_byte(value) == value,
        -32768 <= value <= 32767 ==> wrap_word(value) == value,
{
}

/// Joining the two bytes of a word gives the word back.
pub proof fn lemma_join_of_split(word: i16)
    ensures
        join_bytes(high_byte(word), low_byte(word)) == word,
{
}

/// Keeps the low eight bits of `value`.
pub fn truncate_to_byte(value: i32) -> (byte: i8)
    ensures
        byte == wrap_byte(value as int),
{
    let byte: i8 = #[verifier::truncate] (value as i8);
    assert(value % 256i32 < 128i32 ==> (value as i8) == value % 256i32) by (bit_vector);
    assert(value % 256i32 >= 128i32 ==> (value as i8) == value % 256i32 - 256) by (bit_vector);
    byte
}

/// Keeps the low sixteen bits of `value`.
pub fn truncate_to_word(value: i32) -> (word: i16)
    ensures
        word == wrap_word(value as int),
{
    let word: i16 = #[verifier::truncate] (value as i16);
    assert(value % 65536i32 < 32768i32 ==> (value as i16) == value % 65536i32) by (bit_vector);
    assert(value % 65536i32 >= 32768i32 ==> (value as i16) == value % 65536i32 - 65536)
        by (bit_vector);
    word
}

/// Splits a word into its most and its least significant byte.
pub fn split_word(word: i16) -> (bytes: (i8, i8))
    ensures
        bytes.0 == high_byte(word),
        bytes.1 == low_byte(word),
{
    let shifted: i16 = word >> 8;
    assert(word >> 8 == word / 256i16 && -128 <= word >> 8 <= 127) by (bit_vector);
    let high: i8 = shifted as i8;
    let low: i8 = #[verifier::truncate] (word as i8);
    assert(word % 256i16 < 128i16 ==> (word as i8) == word % 256i16) by (bit_vector);
    assert(word % 256i16 >= 128i16 ==> (word as i8) == word % 256i16 - 256) by (bit_vector);
    (high, low)
}

/// Joins two cells into the word that has `high` as its most significant
/// byte and `low` as its least significant byte.
pub fn join_word(high: i8, low: i8) -> (word: i16)
    ensures
        word == join_bytes(high, low),
{
    let low_bits: u8 = #[verifier::truncate] (low as u8);
    let word: i16 = ((high as i16) << 8) | (low_bits as i16);
    assert((((high as i16) << 8) | ((low as u8) as i16)) == high * 256 + (low as i16) % 256i16)
        by (bit_vector);
    word
}

} // verus!
