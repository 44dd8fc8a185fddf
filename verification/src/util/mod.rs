use vstd::prelude::*;

verus! {

/// The 16-bit little-endian word made of a low byte and a high byte.
pub open spec fn word_of(l_data: u8, h_data: u8) -> u16 {
    (h_data as int * 256 + l_data as int) as u16
}

/// Combines a low byte and a high byte into a 16-bit address.
pub fn combine_high_low(l_data: u8, h_data: u8) -> (r: u16)
    ensures
        r == h_data as int * 256 + l_data as int,
        r == word_of(l_data, h_data),
        r as u8 == l_data,
        (r >> 8u16) as u8 == h_data,
{
    let r: u16 = ((h_data as u16) << 8u16) | l_data as u16;
    assert(r == h_data as int * 256 + l_data as int && r as u8 == l_data && (r >> 8u16) as u8
        == h_data) by (bit_vector)
        requires
            r == ((h_data as u16) << 8u16) | l_data as u16,
    ;
    r
}

/// The low byte of a 16-bit value is the value modulo 256.
pub proof fn lemma_low_byte_u16(v: u16)
    by (bit_vector)
    ensures
        v as u8 == (v % 256) as u8,
{
}

/// The low byte of a 32-bit value is the value modulo 256.
pub proof fn lemma_low_byte_u32(v: u32)
    by (bit_vector)
    ensures
        v as u8 == (v % 256) as u8,
{
}

/// Two one-bit values side by side make a number below four.
pub proof fn lemma_two_bits(h: u16, r: u16)
    by (bit_vector)
    requires
        h <= 1,
        r <= 1,
    ensures
        h << 1u16 | r == h * 2 + r,
{
}

/// A byte shifted into the high half of a word is multiplied by 256.
pub proof fn lemma_shift_high_byte(r: u16)
    by (bit_vector)
    requires
        r < 256,
    ensures
        r << 8u16 == r * 256,
{
}

/// A byte masked is at most the mask, and nothing survives a mask of zero.
pub proof fn lemma_masked(d: u8, m: u8)
    by (bit_vector)
    ensures
        d & m <= m,
        0u8 & m == 0,
{
}

/// The high bits of a register byte, as fields of it.
pub proof fn lemma_byte_fields(d: u8)
    by (bit_vector)
    ensures
        (d & 0xF8) >> 3u8 == d >> 3u8,
        d >> 3u8 < 32,
        (d as u16 & 0x07) == (d & 0x07) as u16,
        (d & 0xF0) >> 4u8 == d >> 4u8,
        (d & 0x0C) >> 2u8 == (d >> 2u8) & 0x03,
{
}

/// Shifting a byte right by one halves it; its lowest bit is its parity.
pub proof fn lemma_halve_byte(w: u8)
    by (bit_vector)
    ensures
        w >> 1u8 == w / 2,
        w & 1 == w % 2,
{
}

/// Flipping the same bits twice leaves a word unchanged.
pub proof fn lemma_xor_twice(b: u16, m: u16)
    by (bit_vector)
    ensures
        (b ^ m) ^ m == b,
        b ^ 0u16 == b,
{
}

/// Clearing the low nibble does not make a number larger.
pub proof fn lemma_clear_low_nibble(w: usize)
    by (bit_vector)
    ensures
        w & 0xF0 <= w,
{
}

/// Splits a scroll position into the dots of a tile left of the scroll
/// boundary and the dots right of it: `(8 - n % 8, n % 8)`.
pub fn calc_scrolled_tile_ratio(scrolled_count: u16) -> (r: (u32, u32))
    ensures
        r.0 == 8 - scrolled_count % 8,
        r.1 == scrolled_count % 8,
        r.0 + r.1 == 8,
{
    let data = scrolled_count % 8;
    ((8 - data) as u32, data as u32)
}

} // verus!
