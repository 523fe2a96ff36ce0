//! Immediate extraction for the five RV32I instruction encodings.
//!
//! Each format scatters a sign-extended immediate across fixed bit ranges
//! of the 32-bit instruction word. The spec functions state the published
//! bit layout directly; the executable functions are proved to match them.
//! Every format except U sign-extends from bit 31 of the word.

use vstd::prelude::*;

verus! {

/// U-type immediate: bits [31:12] of the word placed at bit position 12,
/// low twelve bits zero. Bit 31 is already the most significant bit, so no
/// further extension is needed.
pub open spec fn spec_imm_u(w: u32) -> u32 {
    w & 0xffff_f000
}

/// I-type immediate: bits [31:20] of the word, sign-extended from bit 31
/// into bits [31:12] of the result.
pub open spec fn spec_imm_i(w: u32) -> u32 {
    if w >> 31 == 1 {
        (w >> 20) | 0xffff_f000
    } else {
        w >> 20
    }
}

/// S-type immediate: bits [31:25] and [11:7] of the word concatenated as
/// imm[11:5] and imm[4:0], sign-extended from bit 31.
pub open spec fn spec_imm_s(w: u32) -> u32 {
    let lo: u32 = (w >> 7) & 0x1f;
    let hi: u32 = (w >> 25) & 0x7f;
    if w >> 31 == 1 {
        ((hi << 5) | lo) | 0xffff_f000
    } else {
        (hi << 5) | lo
    }
}

/// B-type immediate: word bits [31], [7], [30:25], [11:8] reassembled as
/// imm[12], imm[11], imm[10:5], imm[4:1]; bit 0 is implicitly zero, so the
/// value is always even. Sign-extended from bit 31 of the word.
pub open spec fn spec_imm_b(w: u32) -> u32 {
    let b4_1: u32 = (w >> 8) & 0xf;
    let b10_5: u32 = (w >> 25) & 0x3f;
    let b11: u32 = (w >> 7) & 1;
    let b12: u32 = w >> 31;
    let magnitude: u32 = (b12 << 12) | (b11 << 11) | (b10_5 << 5) | (b4_1 << 1);
    if b12 == 1 {
        magnitude | 0xffff_e000
    } else {
        magnitude
    }
}

/// J-type immediate: word bits [31], [19:12], [20], [30:21] reassembled as
/// imm[20], imm[19:12], imm[11], imm[10:1]; bit 0 is implicitly zero, so
/// the value is always even. Sign-extended from bit 31 of the word.
pub open spec fn spec_imm_j(w: u32) -> u32 {
    let b10_1: u32 = (w >> 21) & 0x3ff;
    let b11: u32 = (w >> 20) & 1;
    let b19_12: u32 = (w >> 12) & 0xff;
    let b20: u32 = w >> 31;
    let magnitude: u32 = (b20 << 20) | (b19_12 << 12) | (b11 << 11) | (b10_1 << 1);
    if b20 == 1 {
        magnitude | 0xffe0_0000
    } else {
        magnitude
    }
}

/// Extracts the U-type immediate of `w`.
pub fn imm_u(w: u32) -> (r: u32)
    ensures
        r == spec_imm_u(w),
{
    w & 0xffff_f000
}

/// Extracts the sign-extended I-type immediate of `w`.
pub fn imm_i(w: u32) -> (r: u32)
    ensures
        r == spec_imm_i(w),
{
    if w >> 31 == 1 {
        (w >> 20) | 0xffff_f000
    } else {
        w >> 20
    }
}

/// Extracts the sign-extended S-type immediate of `w`.
pub fn imm_s(w: u32) -> (r: u32)
    ensures
        r == spec_imm_s(w),
{
    let lo: u32 = (w >> 7) & 0x1f;
    let hi: u32 = (w >> 25) & 0x7f;
    if w >> 31 == 1 {
        ((hi << 5) | lo) | 0xffff_f000
    } else {
        (hi << 5) | lo
    }
}

/// Extracts the sign-extended B-type immediate of `w`.
pub fn imm_b(w: u32) -> (r: u32)
    ensures
        r == spec_imm_b(w),
{
    let b4_1: u32 = (w >> 8) & 0xf;
    let b10_5: u32 = (w >> 25) & 0x3f;
    let b11: u32 = (w >> 7) & 1;
    let b12: u32 = w >> 31;
    let magnitude: u32 = (b12 << 12) | (b11 << 11) | (b10_5 << 5) | (b4_1 << 1);
    if b12 == 1 {
        magnitude | 0xffff_e000
    } else {
        magnitude
    }
}

/// Extracts the sign-extended J-type immediate of `w`.
pub fn imm_j(w: u32) -> (r: u32)
    ensures
        r == spec_imm_j(w),
{
    let b10_1: u32 = (w >> 21) & 0x3ff;
    let b11: u32 = (w >> 20) & 1;
    let b19_12: u32 = (w >> 12) & 0xff;
    let b20: u32 = w >> 31;
    let magnitude: u32 = (b20 << 20) | (b19_12 << 12) | (b11 << 11) | (b10_1 << 1);
    if b20 == 1 {
        magnitude | 0xffe0_0000
    } else {
        magnitude
    }
}

/// Law: every format sign-extends from bit 31 of the instruction word.
/// When the word's sign bit is set, each decoded immediate has its own
/// bit 31 set (it is negative as a two's-complement value); when the sign
/// bit is clear, each decoded immediate is non-negative.
pub proof fn lemma_imm_sign_extension(w: u32)
    ensures
        w >> 31 == 1 ==> spec_imm_u(w) >= 0x8000_0000 && spec_imm_i(w) >= 0x8000_0000
            && spec_imm_s(w) >= 0x8000_0000 && spec_imm_b(w) >= 0x8000_0000 && spec_imm_j(w)
            >= 0x8000_0000,
        w >> 31 == 0 ==> spec_imm_u(w) < 0x8000_0000 && spec_imm_i(w) < 0x8000_0000 && spec_imm_s(
            w,
        ) < 0x8000_0000 && spec_imm_b(w) < 0x8000_0000 && spec_imm_j(w) < 0x8000_0000,
{
    assert((w >> 31 == 1 ==> spec_imm_u(w) >= 0x8000_0000 && spec_imm_i(w) >= 0x8000_0000
        && spec_imm_s(w) >= 0x8000_0000 && spec_imm_b(w) >= 0x8000_0000 && spec_imm_j(w)
        >= 0x8000_0000) && (w >> 31 == 0 ==> spec_imm_u(w) < 0x8000_0000 && spec_imm_i(w)
        < 0x8000_0000 && spec_imm_s(w) < 0x8000_0000 && spec_imm_b(w) < 0x8000_0000 && spec_imm_j(
        w,
    ) < 0x8000_0000)) by (bit_vector);
}

/// Law: the B-type and J-type immediates are always even; their bit 0 is
/// implicitly zero in the encoding.
pub proof fn lemma_imm_even(w: u32)
    ensures
        spec_imm_b(w) % 2 == 0,
        spec_imm_j(w) % 2 == 0,
{
    assert(spec_imm_b(w) % 2 == 0 && spec_imm_j(w) % 2 == 0) by (bit_vector);
}

} // verus!
