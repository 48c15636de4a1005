use vstd::prelude::*;

verus! {

/// Bit `i` of `x`.
pub open spec fn bit_of(x: u32, i: u32) -> bool {
    (x >> i) & 1u32 == 1u32
}

/// The `n` bits of `src` starting at `src_pos`, moved down to bit 0.
pub open spec fn field_of(src: u32, src_pos: u32, n: u32) -> u32 {
    (src >> src_pos) & (((1u64 << n) - 1) as u32)
}

/// `dst` with its `n` bits starting at `dst_pos` replaced by the `n` bits of
/// `src` starting at `src_pos`.
pub open spec fn spliced(src: u32, src_pos: u32, dst: u32, dst_pos: u32, n: u32) -> u32 {
    let mask = ((1u64 << n) - 1) as u32;
    (dst & !(mask << dst_pos)) | (((src >> src_pos) & mask) << dst_pos)
}

/// Reads bit `bit` of `num`.
pub fn get_bit(num: &u32, bit: u8) -> (r: bool)
    requires
        bit < 32,
    ensures
        r == bit_of(*num, bit as u32),
{
    let mask = 1u32 << bit;
    let val = *num & mask;
    let n = *num;
    let b = bit as u32;
    assert((n & (1u32 << b) != 0u32) == ((n >> b) & 1u32 == 1u32)) by (bit_vector)
        requires
            b < 32,
    ;
    val != 0
}

/// Sets bit `bit` of `num` to `val`, leaving the other bits as they were.
pub fn set_bit(num: &mut u32, bit: u8, val: bool)
    requires
        bit < 32,
    ensures
        *final(num) == spliced(if val { 1u32 } else { 0u32 }, 0, *old(num), bit as u32, 1),
        bit_of(*final(num), bit as u32) == val,
{
    let mask = 1u32 << bit;
    let ghost n = *old(num);
    let ghost b = bit as u32;
    if val {
        *num |= mask;
        assert((n | (1u32 << b)) == spliced(1u32, 0, n, b, 1) && bit_of(n | (1u32 << b), b))
            by (bit_vector)
            requires
                b < 32,
        ;
    } else {
        *num &= !mask;
        assert((n & !(1u32 << b)) == spliced(0u32, 0, n, b, 1) && !bit_of(n & !(1u32 << b), b))
            by (bit_vector)
            requires
                b < 32,
        ;
    }
}

/// Copies bit `src_pos` of `src` into bit `dst_pos` of `dst`.
pub fn copy_bit(src: &u32, src_pos: u8, dst: &mut u32, dst_pos: u8)
    requires
        src_pos < 32,
        dst_pos < 32,
    ensures
        *final(dst) == spliced(*src, src_pos as u32, *old(dst), dst_pos as u32, 1),
{
    let b = get_bit(src, src_pos);
    set_bit(dst, dst_pos, b);
    let ghost s = *src;
    let ghost sp = src_pos as u32;
    let ghost d = *old(dst);
    let ghost dp = dst_pos as u32;
    assert(spliced(if bit_of(s, sp) { 1u32 } else { 0u32 }, 0, d, dp, 1) == spliced(s, sp, d, dp, 1))
        by (bit_vector)
        requires
            sp < 32,
            dp < 32,
    ;
}

/// Copies the `n` bits of `src` starting at `src_pos` into the `n` bits of
/// `dst` starting at `dst_pos`; the other bits of `dst` stay as they were.
pub fn copy_bits(src: &u32, src_pos: u8, dst: &mut u32, dst_pos: u8, n: u8)
    requires
        src_pos as int + n as int <= 32,
        dst_pos as int + n as int <= 32,
    ensures
        *final(dst) == spliced(*src, src_pos as u32, *old(dst), dst_pos as u32, n as u32),
{
    let ghost s = *src;
    let ghost sp = src_pos as u32;
    let ghost d0 = *old(dst);
    let ghost dp = dst_pos as u32;
    let ghost nn = n as u32;
    assert(spliced(s, sp, d0, dp, 0) == d0) by (bit_vector);
    let mut i: u8 = 0;
    while i < n
        invariant
            i <= n,
            src_pos as int + n as int <= 32,
            dst_pos as int + n as int <= 32,
            s == *src,
            sp == src_pos as u32,
            dp == dst_pos as u32,
            *dst == spliced(s, sp, d0, dp, i as u32),
        decreases n - i,
    {
        let b = get_bit(src, src_pos + i);
        set_bit(dst, dst_pos + i, b);
        let ghost ii = i as u32;
        assert(spliced(if bit_of(s, (sp + ii) as u32) { 1u32 } else { 0u32 }, 0,
            spliced(s, sp, d0, dp, ii), (dp + ii) as u32, 1) == spliced(s, sp, d0, dp, (ii + 1) as u32))
            by (bit_vector)
            requires
                sp + ii < 32,
                dp + ii < 32,
        ;
        i = i + 1;
    }
}

/// The fixed fields of an instruction word fit their widths, whichever way
/// their masks and shift amounts are written.
pub proof fn lemma_word_fields_fit(w: u32)
    ensures
        w & 0x7fu32 < 128u32,
        (w >> 7u32) & 31u32 < 32u32,
        (w >> 15u32) & 31u32 < 32u32,
        (w >> 20u32) & 31u32 < 32u32,
        (w >> 12u32) & 7u32 < 8u32,
        (w >> 25u32) & 127u32 < 128u32,
        ((w >> 12u8) & ((1u32 << 3u8) - 1) as u32) == ((w >> 12u32) & 7u32),
        ((w >> 25u8) & ((1u32 << 7u8) - 1) as u32) == ((w >> 25u32) & 127u32),
{
    assert(w & 0x7fu32 < 128u32 && (w >> 7u32) & 31u32 < 32u32 && (w >> 15u32) & 31u32 < 32u32 && (w
        >> 20u32) & 31u32 < 32u32 && (w >> 12u32) & 7u32 < 8u32 && (w >> 25u32) & 127u32 < 128u32
        && ((w >> 12u8) & ((1u32 << 3u8) - 1) as u32) == ((w >> 12u32) & 7u32) && ((w >> 25u8) & ((
    1u32 << 7u8) - 1) as u32) == ((w >> 25u32) & 127u32)) by (bit_vector);
}

/// Shift amounts of either width place a value alike, and the funct field
/// bounds are 8 and 128.
pub proof fn lemma_field_shifts(x: u32)
    ensures
        (x << 12u8) == (x << 12u32),
        (x << 25u8) == (x << 25u32),
        (1u32 << 3u8) == 8u32,
        (1u32 << 7u8) == 128u32,
{
    assert((x << 12u8) == (x << 12u32) && (x << 25u8) == (x << 25u32) && (1u32 << 3u8) == 8u32 && (
    1u32 << 7u8) == 128u32) by (bit_vector);
}

} // verus!
