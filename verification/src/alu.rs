//! Bit-exact integer semantics of the RV64 data path: sign extension, signed
//! comparison, and the shift operations, each as a spec function with a
//! verified executable twin.

use vstd::prelude::*;

verus! {

/// Any masked value is bounded by the mask.
pub proof fn lemma_mask_bound(x: u64, m: u64)
    by (bit_vector)
    ensures
        x & m <= m,
{
}

/// The low 32 bits of a value survive the round trip through `u32`.
pub proof fn lemma_low_word_cast(x: u64)
    by (bit_vector)
    ensures
        x & 0xffff_ffff < 0x1_0000_0000,
        (((x & 0xffff_ffff) as u32) as u64) == x & 0xffff_ffff,
{
}

/// The low byte of a value survives the round trip through `u8`.
pub proof fn lemma_low_byte_cast(x: u64)
    by (bit_vector)
    ensures
        (((x & 0xff) as u8) as u64) == x & 0xff,
{
}

/// The low 8 bits of `v`, interpreted as a signed byte and widened to 64 bits.
pub open spec fn sext8(v: u64) -> u64 {
    if v & 0x80 != 0 {
        (v & 0xff) | 0xffff_ffff_ffff_ff00u64
    } else {
        v & 0xff
    }
}

/// The low 16 bits of `v`, interpreted as signed and widened to 64 bits.
pub open spec fn sext16(v: u64) -> u64 {
    if v & 0x8000 != 0 {
        (v & 0xffff) | 0xffff_ffff_ffff_0000u64
    } else {
        v & 0xffff
    }
}

/// The low 32 bits of `v`, interpreted as signed and widened to 64 bits.
pub open spec fn sext32(v: u64) -> u64 {
    if v & 0x8000_0000 != 0 {
        (v & 0xffff_ffff) | 0xffff_ffff_0000_0000u64
    } else {
        v & 0xffff_ffff
    }
}

/// Sign-extend the low byte of `v` to 64 bits.
pub fn sign_extend_8(v: u64) -> (r: u64)
    ensures
        r == sext8(v),
{
    if v & 0x80 != 0 {
        (v & 0xff) | 0xffff_ffff_ffff_ff00u64
    } else {
        v & 0xff
    }
}

/// Sign-extend the low 16 bits of `v` to 64 bits.
pub fn sign_extend_16(v: u64) -> (r: u64)
    ensures
        r == sext16(v),
{
    if v & 0x8000 != 0 {
        (v & 0xffff) | 0xffff_ffff_ffff_0000u64
    } else {
        v & 0xffff
    }
}

/// Sign-extend the low 32 bits of `v` to 64 bits.
pub fn sign_extend_32(v: u64) -> (r: u64)
    ensures
        r == sext32(v),
{
    if v & 0x8000_0000 != 0 {
        (v & 0xffff_ffff) | 0xffff_ffff_0000_0000u64
    } else {
        v & 0xffff_ffff
    }
}

/// The two's-complement reading of a 64-bit value.
pub open spec fn to_signed(v: u64) -> int {
    if v >= 0x8000_0000_0000_0000 {
        v - 0x1_0000_0000_0000_0000
    } else {
        v as int
    }
}

/// Signed 64-bit comparison: `a < b` as two's-complement integers.
pub open spec fn spec_signed_lt(a: u64, b: u64) -> bool {
    to_signed(a) < to_signed(b)
}

/// Whether `a < b` as signed 64-bit integers.
pub fn signed_lt(a: u64, b: u64) -> (r: bool)
    ensures
        r == spec_signed_lt(a, b),
{
    let a_neg = a >= 0x8000_0000_0000_0000;
    let b_neg = b >= 0x8000_0000_0000_0000;
    if a_neg == b_neg {
        a < b
    } else {
        a_neg
    }
}

/// Logical left shift by the low 6 bits of `amt` (the RV64 `sll` rule).
pub open spec fn sll64(x: u64, amt: u64) -> u64 {
    x << (amt & 0x3f)
}

/// Logical right shift by the low 6 bits of `amt`.
pub open spec fn srl64(x: u64, amt: u64) -> u64 {
    x >> (amt & 0x3f)
}

/// Arithmetic right shift of a 64-bit value by `sh` (`sh < 64`), filling with
/// the sign bit.
pub open spec fn sra64_sh(x: u64, sh: u64) -> u64 {
    if x & 0x8000_0000_0000_0000 == 0 {
        x >> sh
    } else if sh == 0 {
        x
    } else {
        (x >> sh) | (0xffff_ffff_ffff_ffffu64 << ((64 - sh) as u64))
    }
}

/// Arithmetic right shift by the low 6 bits of `amt`.
pub open spec fn sra64(x: u64, amt: u64) -> u64 {
    sra64_sh(x, amt & 0x3f)
}

/// Shift `x` left by the low 6 bits of `amt`.
pub fn shift_left_64(x: u64, amt: u64) -> (r: u64)
    ensures
        r == sll64(x, amt),
{
    let sh = amt & 0x3f;
    proof {
        lemma_mask_bound(amt, 0x3f);
    }
    x << sh
}

/// Shift `x` right logically by the low 6 bits of `amt`.
pub fn shift_right_64(x: u64, amt: u64) -> (r: u64)
    ensures
        r == srl64(x, amt),
{
    let sh = amt & 0x3f;
    proof {
        lemma_mask_bound(amt, 0x3f);
    }
    x >> sh
}

/// Shift `x` right arithmetically by the low 6 bits of `amt`.
pub fn shift_right_arith_64(x: u64, amt: u64) -> (r: u64)
    ensures
        r == sra64(x, amt),
{
    let sh = amt & 0x3f;
    proof {
        lemma_mask_bound(amt, 0x3f);
    }
    if x & 0x8000_0000_0000_0000 == 0 {
        x >> sh
    } else if sh == 0 {
        x
    } else {
        (x >> sh) | (0xffff_ffff_ffff_ffffu64 << (64 - sh))
    }
}

/// Left shift of the low 32 bits by the low 5 bits of `amt`, sign-extended
/// (the `sllw` rule).
pub open spec fn sllw(x: u64, amt: u64) -> u64 {
    sext32((x & 0xffff_ffff) << (amt & 0x1f))
}

/// Logical right shift of the low 32 bits by the low 5 bits of `amt`,
/// sign-extended (the `srlw` rule).
pub open spec fn srlw(x: u64, amt: u64) -> u64 {
    sext32((x & 0xffff_ffff) >> (amt & 0x1f))
}

/// Arithmetic right shift of the low 32 bits by `sh` (`sh < 32`),
/// sign-extended to 64 bits.
pub open spec fn sraw_sh(x: u64, sh: u64) -> u64 {
    let w = x & 0xffff_ffff;
    if w & 0x8000_0000 == 0 {
        sext32(w >> sh)
    } else if sh == 0 {
        sext32(w)
    } else {
        sext32((w >> sh) | (0xffff_ffffu64 << ((32 - sh) as u64)))
    }
}

/// Arithmetic right shift of the low 32 bits by the low 5 bits of `amt`,
/// sign-extended (the `sraw` rule).
pub open spec fn sraw(x: u64, amt: u64) -> u64 {
    sraw_sh(x, amt & 0x1f)
}

/// 32-bit left shift with sign extension, shift amount from the low 5 bits.
pub fn shift_left_32(x: u64, amt: u64) -> (r: u64)
    ensures
        r == sllw(x, amt),
{
    let sh = amt & 0x1f;
    proof {
        lemma_mask_bound(amt, 0x1f);
    }
    sign_extend_32((x & 0xffff_ffff) << sh)
}

/// 32-bit logical right shift with sign extension, shift amount from the low
/// 5 bits.
pub fn shift_right_32(x: u64, amt: u64) -> (r: u64)
    ensures
        r == srlw(x, amt),
{
    let sh = amt & 0x1f;
    proof {
        lemma_mask_bound(amt, 0x1f);
    }
    sign_extend_32((x & 0xffff_ffff) >> sh)
}

/// 32-bit arithmetic right shift with sign extension, shift amount from the
/// low 5 bits.
pub fn shift_right_arith_32(x: u64, amt: u64) -> (r: u64)
    ensures
        r == sraw(x, amt),
{
    let sh = amt & 0x1f;
    proof {
        lemma_mask_bound(amt, 0x1f);
    }
    let w = x & 0xffff_ffff;
    if w & 0x8000_0000 == 0 {
        sign_extend_32(w >> sh)
    } else if sh == 0 {
        sign_extend_32(w)
    } else {
        sign_extend_32((w >> sh) | (0xffff_ffffu64 << (32 - sh)))
    }
}

/// Shift-amount masking for the 64-bit shifts: only the low 6 bits of the
/// shift-amount operand matter, so two operands equal modulo 64 shift alike.
pub proof fn lemma_shift_amount_masked_64(x: u64, amt_a: u64, amt_b: u64)
    requires
        amt_a % 64 == amt_b % 64,
    ensures
        sll64(x, amt_a) == sll64(x, amt_b),
        srl64(x, amt_a) == srl64(x, amt_b),
        sra64(x, amt_a) == sra64(x, amt_b),
{
    assert(amt_a & 0x3f == amt_b & 0x3f) by (bit_vector)
        requires
            amt_a % 64 == amt_b % 64,
    ;
}

/// Shift-amount masking for the 32-bit shifts: only the low 5 bits of the
/// shift-amount operand matter, so two operands equal modulo 32 shift alike.
pub proof fn lemma_shift_amount_masked_32(x: u64, amt_a: u64, amt_b: u64)
    requires
        amt_a % 32 == amt_b % 32,
    ensures
        sllw(x, amt_a) == sllw(x, amt_b),
        srlw(x, amt_a) == srlw(x, amt_b),
        sraw(x, amt_a) == sraw(x, amt_b),
{
    assert(amt_a & 0x1f == amt_b & 0x1f) by (bit_vector)
        requires
            amt_a % 32 == amt_b % 32,
    ;
}

} // verus!
