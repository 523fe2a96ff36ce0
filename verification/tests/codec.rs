//! Encode/decode round trips, one representative instruction per opcode
//! family, and rejection of unrecognized words.

use rv32i_sim::decode::{decode, AluOp, BranchOp, Instr, LoadOp, StoreOp};
use rv32i_sim::encode::{encode_b, encode_i, encode_j, encode_r, encode_s, encode_u};

#[test]
fn round_trip_lui() {
    let w = encode_u(0x37, 5, 0xABCD_E000);
    assert_eq!(decode(w), Some(Instr::Lui { rd: 5, imm: 0xABCD_E000 }));
}

#[test]
fn round_trip_auipc() {
    let w = encode_u(0x17, 31, 0x0000_1000);
    assert_eq!(decode(w), Some(Instr::Auipc { rd: 31, imm: 0x1000 }));
}

#[test]
fn round_trip_jal() {
    let w = encode_j(0x6F, 1, 8);
    assert_eq!(w, 0x0080_00EF);
    assert_eq!(decode(w), Some(Instr::Jal { rd: 1, imm: 8 }));
    // A negative offset round-trips through its sign-extended form.
    let w = encode_j(0x6F, 0, 0xFFFF_FFFC);
    assert_eq!(decode(w), Some(Instr::Jal { rd: 0, imm: 0xFFFF_FFFC }));
}

#[test]
fn round_trip_jalr() {
    let w = encode_i(0x67, 0, 0, 1, 0);
    assert_eq!(w, 0x0000_8067);
    assert_eq!(decode(w), Some(Instr::Jalr { rd: 0, rs1: 1, imm: 0 }));
}

#[test]
fn round_trip_beq() {
    let w = encode_b(0x63, 0, 1, 2, 8);
    assert_eq!(w, 0x0020_8463);
    assert_eq!(
        decode(w),
        Some(Instr::Branch { op: BranchOp::Beq, rs1: 1, rs2: 2, imm: 8 })
    );
}

#[test]
fn round_trip_bltu_negative_offset() {
    let w = encode_b(0x63, 6, 7, 8, 0xFFFF_FFF8);
    assert_eq!(
        decode(w),
        Some(Instr::Branch { op: BranchOp::Bltu, rs1: 7, rs2: 8, imm: 0xFFFF_FFF8 })
    );
}

#[test]
fn round_trip_lw() {
    let w = encode_i(0x03, 2, 6, 5, 0);
    assert_eq!(w, 0x0002_A303);
    assert_eq!(
        decode(w),
        Some(Instr::Load { op: LoadOp::Lw, rd: 6, rs1: 5, imm: 0 })
    );
}

#[test]
fn round_trip_sw() {
    let w = encode_s(0x23, 2, 5, 6, 0);
    assert_eq!(w, 0x0062_A023);
    assert_eq!(
        decode(w),
        Some(Instr::Store { op: StoreOp::Sw, rs1: 5, rs2: 6, imm: 0 })
    );
}

#[test]
fn round_trip_addi() {
    let w = encode_i(0x13, 0, 10, 0, 93);
    assert_eq!(w, 0x05D0_0513);
    assert_eq!(
        decode(w),
        Some(Instr::OpImm { op: AluOp::Add, rd: 10, rs1: 0, imm: 93 })
    );
    let w = encode_i(0x13, 0, 1, 2, 0xFFFF_FFFF);
    assert_eq!(
        decode(w),
        Some(Instr::OpImm { op: AluOp::Add, rd: 1, rs1: 2, imm: 0xFFFF_FFFF })
    );
}

#[test]
fn round_trip_add_and_sub() {
    let w = encode_r(0x33, 0, 0, 3, 1, 2);
    assert_eq!(w, 0x0020_81B3);
    assert_eq!(
        decode(w),
        Some(Instr::OpReg { op: AluOp::Add, rd: 3, rs1: 1, rs2: 2 })
    );
    let w = encode_r(0x33, 0, 0x20, 3, 1, 2);
    assert_eq!(
        decode(w),
        Some(Instr::OpReg { op: AluOp::Sub, rd: 3, rs1: 1, rs2: 2 })
    );
}

#[test]
fn round_trip_shifts() {
    // SLLI, SRLI, SRAI carry the shift amount in the immediate's low bits;
    // SRAI is distinguished by funct7 = 0x20, which sign-extension of the
    // I-immediate preserves in bits [11:5].
    let w = encode_i(0x13, 1, 4, 5, 3);
    assert_eq!(
        decode(w),
        Some(Instr::OpImm { op: AluOp::Sll, rd: 4, rs1: 5, imm: 3 })
    );
    let w = encode_i(0x13, 5, 4, 5, 3);
    assert_eq!(
        decode(w),
        Some(Instr::OpImm { op: AluOp::Srl, rd: 4, rs1: 5, imm: 3 })
    );
    let w = encode_i(0x13, 5, 4, 5, 0x403);
    assert_eq!(
        decode(w),
        Some(Instr::OpImm { op: AluOp::Sra, rd: 4, rs1: 5, imm: 0x403 })
    );
}

#[test]
fn rejects_unrecognized_opcodes() {
    assert_eq!(decode(0x0000_0000), None);
    assert_eq!(decode(0xFFFF_FFFF), None);
    // FENCE and SYSTEM opcodes are outside the recognized set.
    assert_eq!(decode(0x0000_000F), None);
    assert_eq!(decode(0x0000_0073), None);
}

#[test]
fn rejects_unrecognized_funct_combinations() {
    // Branch funct3 = 2 and 3 do not exist.
    assert_eq!(decode(encode_b(0x63, 2, 1, 2, 8)), None);
    assert_eq!(decode(encode_b(0x63, 3, 1, 2, 8)), None);
    // Load funct3 = 3 does not exist.
    assert_eq!(decode(encode_i(0x03, 3, 1, 2, 0)), None);
    // Store funct3 = 3 does not exist.
    assert_eq!(decode(encode_s(0x23, 3, 1, 2, 0)), None);
    // Register ALU with a stray funct7 bit is illegal.
    assert_eq!(decode(encode_r(0x33, 0, 1, 3, 1, 2)), None);
    // SUB form of a funct3 that has none is illegal.
    assert_eq!(decode(encode_r(0x33, 4, 0x20, 3, 1, 2)), None);
    // JALR requires funct3 = 0.
    assert_eq!(decode(encode_i(0x67, 1, 0, 1, 0)), None);
}
