//! Bit-field extraction from a 32-bit word.
//!
//! A field is the half-open bit range `[start, end)` of a word,
//! right-aligned. `extract_unsigned_bits` returns it as is;
//! `extract_bits` sign-extends it from its most significant bit.

use vstd::arithmetic::power2::pow2;
use vstd::bits::lemma_u64_shl_is_mul;
use vstd::prelude::*;

verus! {

/// Mask with the low `w` bits set, for `1 <= w <= 32`.
pub open spec fn mask32(w: u32) -> u32
    recommends
        1 <= w <= 32,
{
    if w >= 32 {
        0xffff_ffffu32
    } else {
        ((1u32 << w) - 1) as u32
    }
}

/// The unsigned value of bits `[start, end)` of `from`.
pub open spec fn spec_extract_unsigned(from: u32, start: u32, end: u32) -> u32
    recommends
        start < end <= 32,
{
    (from >> start) & mask32((end - start) as u32)
}

/// The sign-extended value of bits `[start, end)` of `from`, as the
/// 32-bit two's-complement pattern it extends to.
pub open spec fn spec_extract_signed(from: u32, start: u32, end: u32) -> i32
    recommends
        start < end <= 32,
{
    let raw = spec_extract_unsigned(from, start, end);
    let w = (end - start) as u32;
    if raw & (1u32 << ((w - 1) as u32)) != 0 {
        (raw | !mask32(w)) as i32
    } else {
        raw as i32
    }
}

/// Extracts bits `[start, end)` of `from` without sign extension.
pub fn extract_unsigned_bits(from: u32, start: u32, end: u32) -> (r: u32)
    requires
        start < end <= 32,
    ensures
        r == spec_extract_unsigned(from, start, end),
{
    let width = end - start;
    proof {
        assert(width < 32 ==> 1u32 << width >= 1) by (bit_vector);
    }
    let mask: u32 = if width >= 32 {
        0xffff_ffff
    } else {
        (1u32 << width) - 1
    };
    (from >> start) & mask
}

/// Extracts bits `[start, end)` of `from` and sign-extends from the
/// field's most significant bit.
pub fn extract_bits(from: u32, start: u32, end: u32) -> (r: i32)
    requires
        start < end <= 32,
    ensures
        r == spec_extract_signed(from, start, end),
{
    let width = end - start;
    let raw = extract_unsigned_bits(from, start, end);
    proof {
        assert(width < 32 ==> 1u32 << width >= 1) by (bit_vector);
    }
    let mask: u32 = if width >= 32 {
        0xffff_ffff
    } else {
        (1u32 << width) - 1
    };
    if raw & (1u32 << (width - 1)) != 0 {
        (raw | !mask) as i32
    } else {
        raw as i32
    }
}

/// An unsigned field of width `w` lies in `[0, 2^w)`.
pub proof fn lemma_extract_unsigned_range(from: u32, start: u32, end: u32)
    requires
        start < end <= 32,
    ensures
        spec_extract_unsigned(from, start, end) < pow2((end - start) as nat),
{
    let w = (end - start) as u32;
    assert(w < 32 ==> (spec_extract_unsigned(from, start, end) as u64) < (1u64 << (w as u64)))
        by (bit_vector)
        requires
            start < end <= 32 && w == end - start,
    ;
    assert(w == 32 ==> spec_extract_unsigned(from, start, end) <= 0xffff_ffffu32) by (bit_vector)
        requires
            start < end <= 32 && w == end - start,
    ;
    if w < 32 {
        vstd::bits::lemma_u64_pow2_no_overflow(w as nat);
        lemma_u64_shl_is_mul(1u64, w as u64);
    } else {
        vstd::arithmetic::power2::lemma2_to64();
        vstd::arithmetic::power2::lemma2_to64_rest();
    }
}

/// A signed field of width `w` lies in `[-2^(w-1), 2^(w-1) - 1]`, and
/// taking it modulo `2^w` recovers the unsigned field.
pub proof fn lemma_extract_signed_range(from: u32, start: u32, end: u32)
    requires
        start < end <= 32,
    ensures
        -(pow2((end - start - 1) as nat) as int) <= spec_extract_signed(from, start, end) as int,
        spec_extract_signed(from, start, end) as int <= pow2((end - start - 1) as nat) - 1,
        (spec_extract_signed(from, start, end) as int) % (pow2((end - start) as nat) as int)
            == spec_extract_unsigned(from, start, end) as int,
{
    let u = spec_extract_unsigned(from, start, end);
    let s = spec_extract_signed(from, start, end);
    let w = (end - start) as u32;
    let wm1 = (end - start - 1) as u32;
    assert({
        &&& (u as u64) < (1u64 << (w as u64))
        &&& ((u as u64) < (1u64 << (wm1 as u64)) ==> (s as i64) == u as i64)
        &&& ((u as u64) >= (1u64 << (wm1 as u64)) ==> (s as i64) == (u as i64) - ((1u64
            << (w as u64)) as i64))
    }) by (bit_vector)
        requires
            start < end <= 32 && w == end - start && w == wm1 + 1 && u == spec_extract_unsigned(
                from,
                start,
                end,
            ) && s == spec_extract_signed(from, start, end),
    ;
    vstd::bits::lemma_u64_pow2_no_overflow(w as nat);
    vstd::bits::lemma_u64_pow2_no_overflow((w - 1) as nat);
    lemma_u64_shl_is_mul(1u64, w as u64);
    lemma_u64_shl_is_mul(1u64, (w - 1) as u64);
    vstd::arithmetic::power2::lemma_pow2_adds((w - 1) as nat, 1);
    vstd::arithmetic::power2::lemma2_to64();
    vstd::arithmetic::power2::lemma_pow2_pos(w as nat);
    if (u as nat) < pow2((w - 1) as nat) {
        vstd::arithmetic::div_mod::lemma_small_mod(u as nat, pow2(w as nat));
    } else {
        assert(s as int == u - pow2(w as nat));
        vstd::arithmetic::div_mod::lemma_mod_multiples_vanish(
            -1,
            u as int,
            pow2(w as nat) as int,
        );
        vstd::arithmetic::div_mod::lemma_small_mod(u as nat, pow2(w as nat));
    }
}

} // verus!
