//! Facts about bit manipulations on bytes and words, shared by the
//! emulated components.

use vstd::prelude::*;

verus! {

/// Value of the bits 7 to 4 of `v`, each one tested separately
pub open spec fn high_nibble_bits(v: u8) -> int {
    (if v & 0x80 != 0 { 0x80int } else { 0 }) + (if v & 0x40 != 0 { 0x40int } else { 0 }) + (if v
        & 0x20 != 0 { 0x20int } else { 0 }) + (if v & 0x10 != 0 { 0x10int } else { 0 })
}

/// Testing the four high bits of a byte one by one and adding them
/// back gives the high nibble of the byte.
pub proof fn lemma_high_nibble_bits(v: u8)
    ensures
        high_nibble_bits(v) == v & 0xf0,
        v & 0xf0 == (v / 16) * 16,
{
    assert((if v & 0x80 != 0 { 0x80int } else { 0 }) + (if v & 0x40 != 0 { 0x40int } else { 0 }) + (
    if v & 0x20 != 0 { 0x20int } else { 0 }) + (if v & 0x10 != 0 { 0x10int } else { 0 }) == v
        & 0xf0) by (bit_vector);
    assert(v & 0xf0 == (v / 16) * 16) by (bit_vector);
}

/// A 16 bit word built from a high and a low byte
pub open spec fn word(hi: u8, lo: u8) -> u16 {
    (hi * 256 + lo) as u16
}

/// High byte of a 16 bit word
pub open spec fn hi_byte(w: u16) -> u8 {
    (w / 256) as u8
}

/// Low byte of a 16 bit word
pub open spec fn lo_byte(w: u16) -> u8 {
    (w % 256) as u8
}

/// Shifting and masking bytes of words is the same as multiplying,
/// dividing and taking remainders by 256.
pub proof fn lemma_word_bytes(hi: u8, lo: u8, w: u16)
    ensures
        ((hi as u16) << 8u16) | (lo as u16) == word(hi, lo),
        (w >> 8u16) as u8 == hi_byte(w),
        w as u8 == lo_byte(w),
        word(hi_byte(w), lo_byte(w)) == w,
        hi_byte(word(hi, lo)) == hi,
        lo_byte(word(hi, lo)) == lo,
{
    assert(((hi as u16) << 8u16) | (lo as u16) == hi * 256 + lo) by (bit_vector);
    assert((w >> 8u16) as u8 == w / 256) by (bit_vector);
    assert(w as u8 == w % 256) by (bit_vector);
}

/// Byte `v` with the bit number `b` set
pub open spec fn bit_set(v: u8, b: u8) -> u8 {
    v | (1u8 << b)
}

/// Byte `v` with the bit number `b` cleared
pub open spec fn bit_clear(v: u8, b: u8) -> u8 {
    v & !(1u8 << b)
}

/// `true` if the bit number `b` of `v` is set
pub open spec fn bit_test(v: u8, b: u8) -> bool {
    v & (1u8 << b) != 0
}

/// Setting or clearing a bit decides that bit and leaves the others
/// untouched.
pub proof fn lemma_bit_ops(v: u8, b: u8, o: u8)
    requires
        b < 8,
        o < 8,
    ensures
        bit_test(bit_set(v, b), b),
        !bit_test(bit_clear(v, b), b),
        o != b ==> bit_test(bit_set(v, b), o) == bit_test(v, o),
        o != b ==> bit_test(bit_clear(v, b), o) == bit_test(v, o),
{
    assert(b < 8 && o < 8 ==> ((v | (1u8 << b)) & (1u8 << b) != 0) && ((v & !(1u8 << b)) & (1u8 << b)
        == 0) && (o != b ==> (((v | (1u8 << b)) & (1u8 << o) != 0) == (v & (1u8 << o) != 0))) && (o
        != b ==> (((v & !(1u8 << b)) & (1u8 << o) != 0) == (v & (1u8 << o) != 0)))) by (bit_vector);
}

} // verus!
