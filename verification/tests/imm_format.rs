//! Literal bit-pattern tests for the five immediate formats: a set sign
//! bit must sign-extend (negative result as i32), a clear sign bit must
//! give a non-negative result.

use rv32i_sim::imm::{imm_b, imm_i, imm_j, imm_s, imm_u};

#[test]
fn u_type_sign_set_keeps_top_bit() {
    // LUI with imm[31:12] = 0x80000: top bit of the result is set.
    let v = imm_u(0x8000_0037);
    assert_eq!(v, 0x8000_0000);
    assert!((v as i32) < 0);
}

#[test]
fn u_type_sign_clear_non_negative() {
    let v = imm_u(0x7FFF_F037);
    assert_eq!(v, 0x7FFF_F000);
    assert!((v as i32) >= 0);
}

#[test]
fn i_type_sign_set_extends() {
    // ADDI with imm bits [31:20] = 0x800, i.e. -2048.
    let v = imm_i(0x8000_0013);
    assert_eq!(v, 0xFFFF_F800);
    assert_eq!(v as i32, -2048);
}

#[test]
fn i_type_sign_clear_non_negative() {
    let v = imm_i(0x7FF0_0013);
    assert_eq!(v, 0x7FF);
    assert_eq!(v as i32, 2047);
}

#[test]
fn s_type_sign_set_extends() {
    // SW with imm[11:5] = 0x40, imm[4:0] = 0, i.e. -2048.
    let v = imm_s(0x8000_0023);
    assert_eq!(v, 0xFFFF_F800);
    assert_eq!(v as i32, -2048);
}

#[test]
fn s_type_sign_clear_non_negative() {
    // imm[11:5] = 0x3F, imm[4:0] = 0x1F, i.e. +2047.
    let v = imm_s(0x7E00_0FA3);
    assert_eq!(v, 0x7FF);
    assert_eq!(v as i32, 2047);
}

#[test]
fn b_type_sign_set_extends() {
    // BEQ with imm[12] = 1 and all magnitude bits zero, i.e. -4096.
    let v = imm_b(0x8000_0063);
    assert_eq!(v, 0xFFFF_F000);
    assert_eq!(v as i32, -4096);
}

#[test]
fn b_type_sign_clear_non_negative() {
    // imm[11] = 1, imm[10:5] = 0x3F, imm[4:1] = 0xF, i.e. +4094.
    let v = imm_b(0x7E00_0FE3);
    assert_eq!(v, 0xFFE);
    assert_eq!(v as i32, 4094);
}

#[test]
fn j_type_sign_set_extends() {
    // JAL with imm[20] = 1 and all magnitude bits zero, i.e. -1048576.
    let v = imm_j(0x8000_006F);
    assert_eq!(v, 0xFFF0_0000);
    assert_eq!(v as i32, -1048576);
}

#[test]
fn j_type_sign_clear_non_negative() {
    // imm[10:1] = 0x3FF, imm[11] = 1, imm[19:12] = 0xFF, i.e. +1048574.
    let v = imm_j(0x7FFF_F06F);
    assert_eq!(v, 0xF_FFFE);
    assert_eq!(v as i32, 1048574);
}

#[test]
fn b_and_j_immediates_are_even() {
    let words = [
        0x8000_0063u32,
        0x7E00_0FE3,
        0x8000_006F,
        0x7FFF_F06F,
        0xDEAD_BEEF,
        0x1234_5678,
    ];
    for w in words {
        assert_eq!(imm_b(w) % 2, 0);
        assert_eq!(imm_j(w) % 2, 0);
    }
}
