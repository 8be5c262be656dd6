use vstd::prelude::*;

verus! {

/// An array of `N` zero bytes.
pub open spec fn zeros<const N: usize>() -> [u8; N] {
    vstd::array::spec_array_fill_for_copy_type::<u8, N>(0)
}

/// The sixteen-bit word with high byte `hi` and low byte `lo`.
pub open spec fn word(hi: u8, lo: u8) -> u16 {
    (hi * 256 + lo) as u16
}

/// The high byte of a word.
pub open spec fn high_byte(value: u16) -> u8 {
    (value / 256) as u8
}

/// The low byte of a word.
pub open spec fn low_byte(value: u16) -> u8 {
    (value % 256) as u8
}

/// The value of a byte read as a two's complement number.
pub open spec fn signed(e: u8) -> int {
    if e < 128 {
        e as int
    } else {
        e - 256
    }
}

/// A byte is the weighted sum of its eight bits.
pub proof fn lemma_byte_bits(b: u8)
    by (bit_vector)
    ensures
        b == (b / 128) * 128 + ((b / 64) % 2) * 64 + ((b / 32) % 2) * 32 + ((b / 16) % 2) * 16 + ((b
            / 8) % 2) * 8 + ((b / 4) % 2) * 4 + ((b / 2) % 2) * 2 + b % 2,
{
}

/// The low bits of a byte are the weighted sum of as many of its bits.
pub proof fn lemma_low_bits(b: u8)
    by (bit_vector)
    ensures
        b % 8 == ((b / 4) % 2) * 4 + ((b / 2) % 2) * 2 + b % 2,
        b % 32 == ((b / 16) % 2) * 16 + ((b / 8) % 2) * 8 + ((b / 4) % 2) * 4 + ((b / 2) % 2) * 2
            + b % 2,
        b % 64 == ((b / 32) % 2) * 32 + ((b / 16) % 2) * 16 + ((b / 8) % 2) * 8 + ((b / 4) % 2) * 4
            + ((b / 2) % 2) * 2 + b % 2,
        b % 128 == ((b / 64) % 2) * 64 + ((b / 32) % 2) * 32 + ((b / 16) % 2) * 16 + ((b / 8) % 2)
            * 8 + ((b / 4) % 2) * 4 + b % 4,
        b - b % 16 == (b / 128) * 128 + ((b / 64) % 2) * 64 + ((b / 32) % 2) * 32 + ((b / 16) % 2)
            * 16,
        b % 4 <= 3,
{
}

/// Joins a high and a low byte to a word.
pub fn make_word(hi: u8, lo: u8) -> (value: u16)
    ensures
        value == word(hi, lo),
        high_byte(value) == hi,
        low_byte(value) == lo,
{
    (hi as u16) * 256 + (lo as u16)
}

/// Splits a word into its high and its low byte.
pub fn split_word(value: u16) -> (bytes: (u8, u8))
    ensures
        bytes.0 == high_byte(value),
        bytes.1 == low_byte(value),
        word(bytes.0, bytes.1) == value,
{
    ((value / 256) as u8, (value % 256) as u8)
}

} // verus!
