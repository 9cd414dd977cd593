//! Facts about the bit operations the processor uses, proved with the
//! bit-vector solver and phrased over the arithmetic of the model.
use vstd::prelude::*;

verus! {

/// A byte widened to 16 bits and shifted into the high byte, joined with a low
/// byte, is the little-endian word of the two.
pub proof fn lemma_join_bytes(lo: u8, hi: u8)
    ensures
        ((hi as u16) << 8u16) | (lo as u16) == (hi as int * 256 + lo as int),
{
    let h = hi as u16;
    let l = lo as u16;
    assert(h < 256 && l < 256 ==> (h << 8u16) | l == h * 256 + l) by (bit_vector);
}

/// The high and low bytes of a 16-bit word.
pub proof fn lemma_split_word(data: u16)
    ensures
        ((data >> 8u16) as u8) as int == data / 256,
        ((data & 0xffu16) as u8) as int == data % 256,
{
    assert((((data >> 8u16) as u8) as int == data / 256) && (((data & 0xffu16) as u8) as int == data % 256)) by (bit_vector);
}

/// Truncating a 16-bit value to a byte keeps it modulo 256.
pub proof fn lemma_low_byte(v: u16)
    ensures
        (v as u8) as int == v % 256,
{
    assert((v as u8) as int == v % 256) by (bit_vector);
}

/// Bit 7 of a 16-bit value is bit 7 of its low byte.
pub proof fn lemma_bit7(v: u16)
    ensures
        (v & 0b1000_0000u16 != 0) == (v % 256 >= 128),
        v & 0b1000_0000u16 == 0 || v & 0b1000_0000u16 == 0b1000_0000u16,
{
    assert(((v & 0b1000_0000u16 != 0) == (v % 256 >= 128)) && (v & 0b1000_0000u16 == 0 || v & 0b1000_0000u16 == 0b1000_0000u16)) by (bit_vector);
}

/// Bit 7 of a byte.
pub proof fn lemma_byte_bit7(v: u8)
    ensures
        (v & 0b1000_0000u8 != 0) == (v >= 128),
{
    assert((v & 0b1000_0000u8 != 0) == (v >= 128)) by (bit_vector);
}

/// Bit 0 of a byte.
pub proof fn lemma_byte_bit0(v: u8)
    ensures
        (v & 0b0000_0001u8 == 1) == (v % 2 == 1),
        (v & 0b0000_0001u8) as int == v % 2,
{
    assert(((v & 0b0000_0001u8 == 1) == (v % 2 == 1)) && ((v & 0b0000_0001u8) as int == v % 2)) by (bit_vector);
}

/// The complements of the single-bit masks.
pub proof fn lemma_masks()
    ensures
        !0b0000_0001u8 == 0b1111_1110u8,
        !0b0000_0010u8 == 0b1111_1101u8,
        !0b0100_0000u8 == 0b1011_1111u8,
        !0b1000_0000u8 == 0b0111_1111u8,
{
    assert((!0b0000_0001u8 == 0b1111_1110u8) && (!0b0000_0010u8 == 0b1111_1101u8) && (!0b0100_0000u8 == 0b1011_1111u8) && (!0b1000_0000u8 == 0b0111_1111u8)) by (bit_vector);
}

/// The carry bit of a status byte is 0 or 1, and is 1 exactly when set.
pub proof fn lemma_carry_bit(status: u8)
    ensures
        (status & 0b0000_0001u8 != 0) ==> (status & 0b0000_0001u8) == 1,
        (status & 0b0000_0001u8) <= 1,
{
    assert(((status & 0b0000_0001u8 != 0) ==> (status & 0b0000_0001u8) == 1) && ((status & 0b0000_0001u8) <= 1)) by (bit_vector);
}

/// A byte shifted left by one inside 16 bits is doubled; with a carry bit or-ed
/// in, the carry is added.
pub proof fn lemma_shift_left(v: u8, c: u8)
    requires
        c <= 1,
    ensures
        (v as u16) << 1u16 == 2 * v,
        ((v as u16) << 1u16) | (c as u16) == 2 * v + c,
{
    let w = v as u16;
    let d = c as u16;
    assert((w < 256 ==> w << 1u16 == 2 * w) && (w < 256 && d <= 1 ==> (w << 1u16) | d == 2 * w + d)) by (bit_vector);
}

/// A byte shifted right by one is halved; with bit 7 or-ed in, 128 is added.
pub proof fn lemma_shift_right(v: u8, c: u8)
    requires
        c <= 1,
    ensures
        v >> 1u8 == v / 2,
        (v >> 1u8) | (c << 7u8) == v / 2 + 128 * c,
        c << 7u8 == 128 * c,
{
    assert((v >> 1u8 == v / 2) && (c <= 1 ==> (v >> 1u8) | (c << 7u8) == v / 2 + 128 * c) && (c <= 1 ==> c << 7u8 == 128 * c)) by (bit_vector);
}

/// The complement of a byte.
pub proof fn lemma_not_byte(v: u8)
    ensures
        (!v) as int == 255 - v,
{
    assert((!v) as int == 255 - v) by (bit_vector);
}

/// Reading a byte as a signed value and widening it, as the branch
/// instructions do.
pub proof fn lemma_signed_byte(v: u8)
    ensures
        (v as i8) as int == if v < 128 { v as int } else { v as int - 256 },
{
    assert((v as i8) as int == if v < 128 { v as int } else { v as int - 256 }) by (bit_vector);
}

/// The stack page address of a stack pointer value.
pub proof fn lemma_stack_page(sp: u8)
    ensures
        (0x0100u16 | (sp as u16)) as int == 0x100 + sp,
{
    let w = sp as u16;
    assert(w < 256 ==> 0x0100u16 | w == 0x100 + w) by (bit_vector);
}

/// The offset of an address within its page, and the start of its page.
pub proof fn lemma_page_parts(ptr: u16)
    ensures
        (ptr & 0x00FFu16) as int == ptr % 256,
        (ptr & 0xFF00u16) as int == ptr - ptr % 256,
{
    assert(((ptr & 0x00FFu16) as int == ptr % 256) && ((ptr & 0xFF00u16) as int == ptr - ptr % 256)) by (bit_vector);
}

} // verus!
