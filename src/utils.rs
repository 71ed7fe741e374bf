//! Bit and byte helpers shared by every component.
use vstd::prelude::*;

verus! {

/// The value of bit `index` of `byte`.
pub open spec fn bit(byte: u8, index: u8) -> bool {
    (byte >> index) & 1u8 == 1u8
}

/// The 16-bit word whose high byte is `high` and whose low byte is `low`.
pub open spec fn word_of(high: u8, low: u8) -> u16 {
    ((high as u16) * 256 + (low as u16)) as u16
}

/// The high byte of a word.
pub open spec fn high_byte(w: u16) -> u8 {
    (w / 256) as u8
}

/// The low byte of a word.
pub open spec fn low_byte(w: u16) -> u8 {
    (w % 256) as u8
}

pub fn compose_bytes(high: u8, low: u8) -> (r: u16)
    ensures
        r == ((high as u16) << 8u16) | (low as u16),
        r == word_of(high, low),
{
    let r = ((high as u16) << 8u16) | low as u16;
    assert(((high as u16) << 8u16) | (low as u16) == (high as u16) * 256 + (low as u16))
        by (bit_vector);
    r
}

pub fn is_set(byte: u8, index: u8) -> (r: bool)
    requires
        index < 8,
    ensures
        r == bit(byte, index),
{
    let r = byte & (1u8 << index) > 0;
    assert((byte & (1u8 << index) > 0) == ((byte >> index) & 1u8 == 1u8)) by (bit_vector)
        requires
            index < 8,
    ;
    r
}

pub fn set_bit(byte: u8, index: u8) -> (r: u8)
    requires
        index < 8,
    ensures
        r == byte | (1u8 << index),
        bit(r, index),
        forall|j: u8| j < 8 && j != index ==> bit(r, j) == bit(byte, j),
{
    let r = byte | (1u8 << index);
    proof {
        lemma_set_bit(byte, index);
    }
    r
}

pub fn reset_bit(byte: u8, index: u8) -> (r: u8)
    requires
        index < 8,
    ensures
        r == byte & !(1u8 << index),
        !bit(r, index),
        forall|j: u8| j < 8 && j != index ==> bit(r, j) == bit(byte, j),
{
    let r = byte & !(1u8 << index);
    proof {
        lemma_reset_bit(byte, index);
    }
    r
}

proof fn lemma_set_bit(byte: u8, index: u8)
    requires
        index < 8,
    ensures
        bit(byte | (1u8 << index), index),
        forall|j: u8| j < 8 && j != index ==> bit(byte | (1u8 << index), j) == bit(byte, j),
{
    assert(((byte | (1u8 << index)) >> index) & 1u8 == 1u8) by (bit_vector)
        requires
            index < 8,
    ;
    assert forall|j: u8| j < 8 && j != index implies bit(byte | (1u8 << index), j) == bit(
        byte,
        j,
    ) by {
        assert((((byte | (1u8 << index)) >> j) & 1u8 == 1u8) == ((byte >> j) & 1u8 == 1u8))
            by (bit_vector)
            requires
                index < 8,
                j < 8,
                j != index,
        ;
    }
}

proof fn lemma_reset_bit(byte: u8, index: u8)
    requires
        index < 8,
    ensures
        !bit(byte & !(1u8 << index), index),
        forall|j: u8| j < 8 && j != index ==> bit(byte & !(1u8 << index), j) == bit(byte, j),
{
    assert(((byte & !(1u8 << index)) >> index) & 1u8 == 0u8) by (bit_vector)
        requires
            index < 8,
    ;
    assert forall|j: u8| j < 8 && j != index implies bit(byte & !(1u8 << index), j) == bit(
        byte,
        j,
    ) by {
        assert((((byte & !(1u8 << index)) >> j) & 1u8 == 1u8) == ((byte >> j) & 1u8 == 1u8))
            by (bit_vector)
            requires
                index < 8,
                j < 8,
                j != index,
        ;
    }
}

/// Splitting a word into its little-endian bytes and composing them again
/// gives the word back, and composing two bytes and splitting the result
/// gives the two bytes back.
pub proof fn lemma_compose_round_trip(w: u16, high: u8, low: u8)
    ensures
        word_of(high_byte(w), low_byte(w)) == w,
        high_byte(word_of(high, low)) == high,
        low_byte(word_of(high, low)) == low,
{
}

/// Setting a bit makes it read as set, resetting it makes it read as clear,
/// and doing either twice is the same as doing it once.
pub proof fn lemma_bit_utilities(byte: u8, index: u8)
    requires
        index < 8,
    ensures
        bit(byte | (1u8 << index), index),
        !bit(byte & !(1u8 << index), index),
        (byte | (1u8 << index)) | (1u8 << index) == byte | (1u8 << index),
        (byte & !(1u8 << index)) & !(1u8 << index) == byte & !(1u8 << index),
{
    lemma_set_bit(byte, index);
    lemma_reset_bit(byte, index);
    assert((byte | (1u8 << index)) | (1u8 << index) == byte | (1u8 << index)) by (bit_vector);
    assert((byte & !(1u8 << index)) & !(1u8 << index) == byte & !(1u8 << index))
        by (bit_vector);
}

} // verus!
