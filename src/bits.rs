use vstd::prelude::*;

verus! {

/// The flag register built from its four flags: Z, N, H and C in bits 7..4.
pub open spec fn flags_byte(z: bool, n: bool, h: bool, c: bool) -> u8 {
    (if z { 0x80u8 } else { 0u8 }) | (if n { 0x40u8 } else { 0u8 }) | (if h { 0x20u8 } else {
        0u8
    }) | (if c { 0x10u8 } else { 0u8 })
}

/// The flag byte has a zero low nibble, and each flag can be read back from
/// its bit.
pub proof fn lemma_flags_byte(z: bool, n: bool, h: bool, c: bool)
    ensures
        flags_byte(z, n, h, c) & 0x0f == 0,
        (flags_byte(z, n, h, c) & 0x80 != 0) == z,
        (flags_byte(z, n, h, c) & 0x40 != 0) == n,
        (flags_byte(z, n, h, c) & 0x20 != 0) == h,
        (flags_byte(z, n, h, c) & 0x10 != 0) == c,
{
    let zb: u8 = if z { 0x80u8 } else { 0u8 };
    let nb: u8 = if n { 0x40u8 } else { 0u8 };
    let hb: u8 = if h { 0x20u8 } else { 0u8 };
    let cb: u8 = if c { 0x10u8 } else { 0u8 };
    assert((zb | nb | hb | cb) & 0x0f == 0 && ((zb | nb | hb | cb) & 0x80 != 0) == (zb != 0) && ((
    zb | nb | hb | cb) & 0x40 != 0) == (nb != 0) && ((zb | nb | hb | cb) & 0x20 != 0) == (hb != 0)
        && ((zb | nb | hb | cb) & 0x10 != 0) == (cb != 0)) by (bit_vector)
        requires
            zb == 0 || zb == 0x80,
            nb == 0 || nb == 0x40,
            hb == 0 || hb == 0x20,
            cb == 0 || cb == 0x10,
    ;
}

/// Decoding the four flag bits of a byte and encoding them again keeps its
/// high nibble and clears its low nibble.
pub proof fn lemma_flags_of_byte(v: u8)
    ensures
        flags_byte(v & 0x80 != 0, v & 0x40 != 0, v & 0x20 != 0, v & 0x10 != 0) == v & 0xf0,
{
    let zb: u8 = if v & 0x80 != 0 { 0x80u8 } else { 0u8 };
    let nb: u8 = if v & 0x40 != 0 { 0x40u8 } else { 0u8 };
    let hb: u8 = if v & 0x20 != 0 { 0x20u8 } else { 0u8 };
    let cb: u8 = if v & 0x10 != 0 { 0x10u8 } else { 0u8 };
    assert(zb | nb | hb | cb == v & 0xf0) by (bit_vector)
        requires
            zb == (if v & 0x80 != 0 { 0x80u8 } else { 0u8 }),
            nb == (if v & 0x40 != 0 { 0x40u8 } else { 0u8 }),
            hb == (if v & 0x20 != 0 { 0x20u8 } else { 0u8 }),
            cb == (if v & 0x10 != 0 { 0x10u8 } else { 0u8 }),
    ;
}

/// Facts on the low bits of a byte that the mode field of a status register
/// and single-bit reads rely on.
pub proof fn lemma_low_bits(v: u8, s: u8, m: u8, b: u8)
    requires
        m <= 3,
        b < 8,
    ensures
        ((v & 0xf8) | (s & 3)) & 3 == s & 3,
        ((s & 0xf8) | m) & 3 == m,
        s & 3 <= 3,
        (s >> b) & 1 <= 1,
        (s & 0xf8) & 3 == 0,
        (s | 4) & 3 == s & 3,
        (s & !4u8) & 3 == s & 3,
{
    assert(((v & 0xf8) | (s & 3)) & 3 == s & 3 && ((s & 0xf8) | m) & 3 == m && s & 3 <= 3 && (s
        >> b) & 1 <= 1 && (s & 0xf8) & 3 == 0 && (s | 4) & 3 == s & 3 && (s & !4u8) & 3 == s & 3)
        by (bit_vector)
        requires
            m <= 3,
            b < 8,
    ;
}

/// Setting one of the five interrupt bits, or clearing any bit, keeps the
/// three unused bits of an interrupt register clear.
pub proof fn lemma_irq_bits(f: u8, i: u8)
    requires
        f & 0xe0 == 0,
        i < 5,
    ensures
        (f | 1) & 0xe0 == 0,
        (f | 2) & 0xe0 == 0,
        (f | 4) & 0xe0 == 0,
        (f | 0x10) & 0xe0 == 0,
        (f & !(1u8 << i)) & 0xe0 == 0,
{
    assert((f | 1) & 0xe0 == 0 && (f | 2) & 0xe0 == 0 && (f | 4) & 0xe0 == 0 && (f | 0x10) & 0xe0
        == 0 && (f & !(1u8 << i)) & 0xe0 == 0) by (bit_vector)
        requires
            f & 0xe0 == 0,
            i < 5,
    ;
}

/// Masks of a byte stay within their widths.
pub proof fn lemma_u8_masks(v: u8)
    ensures
        v & 0x1f <= 0x1f,
        v & 0x07 <= 7,
        v & 0x03 <= 3,
        v & 0x01 <= 1,
{
    assert(v & 0x1f <= 0x1f && v & 0x07 <= 7 && v & 0x03 <= 3 && v & 0x01 <= 1) by (bit_vector);
}

/// A byte masked to its five interrupt bits has its three unused bits clear.
pub proof fn lemma_mask_irq(v: u8)
    ensures
        (v & 0x1f) & 0xe0 == 0,
{
    assert((v & 0x1f) & 0xe0 == 0) by (bit_vector);
}

/// Masking by one less than a power of two stays below it.
pub proof fn lemma_mask_below(x: u16, n: u16)
    requires
        n == 2 || n == 4 || n == 8 || n == 16 || n == 32 || n == 64 || n == 128 || n == 256 || n
            == 512,
    ensures
        x & ((n - 1) as u16) < n,
{
    assert(x & ((n - 1) as u16) < n) by (bit_vector)
        requires
            n == 2 || n == 4 || n == 8 || n == 16 || n == 32 || n == 64 || n == 128 || n == 256
                || n == 512,
    ;
}

} // verus!
