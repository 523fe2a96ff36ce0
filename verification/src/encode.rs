//! Instruction encoding: assembles operand fields into a raw 32-bit word,
//! one function per format, together with proofs that the decoder inverts
//! each of them.
//!
//! Encoding is the inverse bit scatter of the extraction in [`crate::imm`]
//! and [`crate::decode`]: each function places the given fields at their
//! published bit positions. The round-trip lemmas state, one representative
//! instruction per opcode family, that decoding an encoded word gives back
//! exactly the fields that went in.

use crate::decode::{
    funct3_of,
    funct7_of,
    opcode_of,
    rd_of,
    rs1_of,
    rs2_of,
    spec_decode,
    AluOp,
    BranchOp,
    Instr,
    LoadOp,
    StoreOp,
};
use crate::imm::{spec_imm_b, spec_imm_i, spec_imm_j, spec_imm_s, spec_imm_u};
use vstd::prelude::*;

verus! {

/// Whether `imm` is representable as a U-type immediate: its low twelve
/// bits are zero.
pub open spec fn fits_imm_u(imm: u32) -> bool {
    imm & 0xfff == 0
}

/// Whether `imm` is representable as a sign-extended twelve-bit immediate
/// (the I-type and S-type range, -2048 through 2047 as a two's-complement
/// 32-bit value).
pub open spec fn fits_simm12(imm: u32) -> bool {
    imm < 0x800 || imm >= 0xffff_f800
}

/// Whether `imm` is representable as a B-type immediate: even, and in the
/// sign-extended thirteen-bit range -4096 through 4094.
pub open spec fn fits_imm_b(imm: u32) -> bool {
    imm % 2 == 0 && (imm < 0x1000 || imm >= 0xffff_f000)
}

/// Whether `imm` is representable as a J-type immediate: even, and in the
/// sign-extended twenty-one-bit range -1048576 through 1048574.
pub open spec fn fits_imm_j(imm: u32) -> bool {
    imm % 2 == 0 && (imm < 0x10_0000 || imm >= 0xfff0_0000)
}

/// The U-type word assembling `opcode`, `rd`, and the immediate's bits
/// [31:12].
pub open spec fn spec_encode_u(opcode: u32, rd: u32, imm: u32) -> u32
    recommends
        opcode < 0x80,
        rd < 32,
        fits_imm_u(imm),
{
    imm | (rd << 7) | opcode
}

/// The I-type word assembling `opcode`, `funct3`, `rd`, `rs1`, and the
/// immediate's low twelve bits at [31:20].
pub open spec fn spec_encode_i(opcode: u32, funct3: u32, rd: u32, rs1: u32, imm: u32) -> u32
    recommends
        opcode < 0x80,
        funct3 < 8,
        rd < 32,
        rs1 < 32,
        fits_simm12(imm),
{
    ((imm & 0xfff) << 20) | (rs1 << 15) | (funct3 << 12) | (rd << 7) | opcode
}

/// The S-type word assembling `opcode`, `funct3`, `rs1`, `rs2`, and the
/// immediate split as imm[11:5] at [31:25] and imm[4:0] at [11:7].
pub open spec fn spec_encode_s(opcode: u32, funct3: u32, rs1: u32, rs2: u32, imm: u32) -> u32
    recommends
        opcode < 0x80,
        funct3 < 8,
        rs1 < 32,
        rs2 < 32,
        fits_simm12(imm),
{
    (((imm >> 5) & 0x7f) << 25) | (rs2 << 20) | (rs1 << 15) | (funct3 << 12) | ((imm & 0x1f) << 7)
        | opcode
}

/// The B-type word assembling `opcode`, `funct3`, `rs1`, `rs2`, and the
/// immediate scattered as imm[12] at [31], imm[10:5] at [30:25], imm[4:1]
/// at [11:8], and imm[11] at [7].
pub open spec fn spec_encode_b(opcode: u32, funct3: u32, rs1: u32, rs2: u32, imm: u32) -> u32
    recommends
        opcode < 0x80,
        funct3 < 8,
        rs1 < 32,
        rs2 < 32,
        fits_imm_b(imm),
{
    (((imm >> 12) & 1) << 31) | (((imm >> 5) & 0x3f) << 25) | (rs2 << 20) | (rs1 << 15) | (funct3
        << 12) | (((imm >> 1) & 0xf) << 8) | (((imm >> 11) & 1) << 7) | opcode
}

/// The J-type word assembling `opcode`, `rd`, and the immediate scattered
/// as imm[20] at [31], imm[10:1] at [30:21], imm[11] at [20], and
/// imm[19:12] at [19:12].
pub open spec fn spec_encode_j(opcode: u32, rd: u32, imm: u32) -> u32
    recommends
        opcode < 0x80,
        rd < 32,
        fits_imm_j(imm),
{
    (((imm >> 20) & 1) << 31) | (((imm >> 1) & 0x3ff) << 21) | (((imm >> 11) & 1) << 20) | (((imm
        >> 12) & 0xff) << 12) | (rd << 7) | opcode
}

/// The R-type word assembling `opcode`, `funct3`, `funct7`, `rd`, `rs1`,
/// and `rs2`; the format carries no immediate.
pub open spec fn spec_encode_r(
    opcode: u32,
    funct3: u32,
    funct7: u32,
    rd: u32,
    rs1: u32,
    rs2: u32,
) -> u32
    recommends
        opcode < 0x80,
        funct3 < 8,
        funct7 < 0x80,
        rd < 32,
        rs1 < 32,
        rs2 < 32,
{
    (funct7 << 25) | (rs2 << 20) | (rs1 << 15) | (funct3 << 12) | (rd << 7) | opcode
}

/// Assembles a U-type word.
pub fn encode_u(opcode: u32, rd: u32, imm: u32) -> (r: u32)
    requires
        opcode < 0x80,
        rd < 32,
        fits_imm_u(imm),
    ensures
        r == spec_encode_u(opcode, rd, imm),
{
    imm | (rd << 7) | opcode
}

/// Assembles an I-type word.
pub fn encode_i(opcode: u32, funct3: u32, rd: u32, rs1: u32, imm: u32) -> (r: u32)
    requires
        opcode < 0x80,
        funct3 < 8,
        rd < 32,
        rs1 < 32,
        fits_simm12(imm),
    ensures
        r == spec_encode_i(opcode, funct3, rd, rs1, imm),
{
    ((imm & 0xfff) << 20) | (rs1 << 15) | (funct3 << 12) | (rd << 7) | opcode
}

/// Assembles an S-type word.
pub fn encode_s(opcode: u32, funct3: u32, rs1: u32, rs2: u32, imm: u32) -> (r: u32)
    requires
        opcode < 0x80,
        funct3 < 8,
        rs1 < 32,
        rs2 < 32,
        fits_simm12(imm),
    ensures
        r == spec_encode_s(opcode, funct3, rs1, rs2, imm),
{
    (((imm >> 5) & 0x7f) << 25) | (rs2 << 20) | (rs1 << 15) | (funct3 << 12) | ((imm & 0x1f) << 7)
        | opcode
}

/// Assembles a B-type word.
pub fn encode_b(opcode: u32, funct3: u32, rs1: u32, rs2: u32, imm: u32) -> (r: u32)
    requires
        opcode < 0x80,
        funct3 < 8,
        rs1 < 32,
        rs2 < 32,
        fits_imm_b(imm),
    ensures
        r == spec_encode_b(opcode, funct3, rs1, rs2, imm),
{
    (((imm >> 12) & 1) << 31) | (((imm >> 5) & 0x3f) << 25) | (rs2 << 20) | (rs1 << 15) | (funct3
        << 12) | (((imm >> 1) & 0xf) << 8) | (((imm >> 11) & 1) << 7) | opcode
}

/// Assembles a J-type word.
pub fn encode_j(opcode: u32, rd: u32, imm: u32) -> (r: u32)
    requires
        opcode < 0x80,
        rd < 32,
        fits_imm_j(imm),
    ensures
        r == spec_encode_j(opcode, rd, imm),
{
    (((imm >> 20) & 1) << 31) | (((imm >> 1) & 0x3ff) << 21) | (((imm >> 11) & 1) << 20) | (((imm
        >> 12) & 0xff) << 12) | (rd << 7) | opcode
}

/// Assembles an R-type word.
pub fn encode_r(opcode: u32, funct3: u32, funct7: u32, rd: u32, rs1: u32, rs2: u32) -> (r: u32)
    requires
        opcode < 0x80,
        funct3 < 8,
        funct7 < 0x80,
        rd < 32,
        rs1 < 32,
        rs2 < 32,
    ensures
        r == spec_encode_r(opcode, funct3, funct7, rd, rs1, rs2),
{
    (funct7 << 25) | (rs2 << 20) | (rs1 << 15) | (funct3 << 12) | (rd << 7) | opcode
}

/// Decoding an encoded U-type word recovers every field, including the
/// immediate.
pub proof fn lemma_encode_u_fields(opcode: u32, rd: u32, imm: u32)
    requires
        opcode < 0x80,
        rd < 32,
        fits_imm_u(imm),
    ensures
        opcode_of(spec_encode_u(opcode, rd, imm)) == opcode,
        rd_of(spec_encode_u(opcode, rd, imm)) == rd,
        spec_imm_u(spec_encode_u(opcode, rd, imm)) == imm,
{
    assert(opcode_of(spec_encode_u(opcode, rd, imm)) == opcode && rd_of(
        spec_encode_u(opcode, rd, imm),
    ) == rd && spec_imm_u(spec_encode_u(opcode, rd, imm)) == imm) by (bit_vector)
        requires
            opcode < 0x80,
            rd < 32,
            imm & 0xfff == 0,
    ;
}

/// Decoding an encoded I-type word recovers every field, including the
/// sign-extended immediate.
pub proof fn lemma_encode_i_fields(opcode: u32, funct3: u32, rd: u32, rs1: u32, imm: u32)
    requires
        opcode < 0x80,
        funct3 < 8,
        rd < 32,
        rs1 < 32,
        fits_simm12(imm),
    ensures
        opcode_of(spec_encode_i(opcode, funct3, rd, rs1, imm)) == opcode,
        funct3_of(spec_encode_i(opcode, funct3, rd, rs1, imm)) == funct3,
        rd_of(spec_encode_i(opcode, funct3, rd, rs1, imm)) == rd,
        rs1_of(spec_encode_i(opcode, funct3, rd, rs1, imm)) == rs1,
        spec_imm_i(spec_encode_i(opcode, funct3, rd, rs1, imm)) == imm,
        funct7_of(spec_encode_i(opcode, funct3, rd, rs1, imm)) == (imm >> 5) & 0x7f,
{
    assert(opcode_of(spec_encode_i(opcode, funct3, rd, rs1, imm)) == opcode && funct3_of(
        spec_encode_i(opcode, funct3, rd, rs1, imm),
    ) == funct3 && rd_of(spec_encode_i(opcode, funct3, rd, rs1, imm)) == rd && rs1_of(
        spec_encode_i(opcode, funct3, rd, rs1, imm),
    ) == rs1 && spec_imm_i(spec_encode_i(opcode, funct3, rd, rs1, imm)) == imm && funct7_of(
        spec_encode_i(opcode, funct3, rd, rs1, imm),
    ) == (imm >> 5) & 0x7f) by (bit_vector)
        requires
            opcode < 0x80,
            funct3 < 8,
            rd < 32,
            rs1 < 32,
            imm < 0x800 || imm >= 0xffff_f800,
    ;
}

/// Decoding an encoded S-type word recovers every field, including the
/// sign-extended immediate.
pub proof fn lemma_encode_s_fields(opcode: u32, funct3: u32, rs1: u32, rs2: u32, imm: u32)
    requires
        opcode < 0x80,
        funct3 < 8,
        rs1 < 32,
        rs2 < 32,
        fits_simm12(imm),
    ensures
        opcode_of(spec_encode_s(opcode, funct3, rs1, rs2, imm)) == opcode,
        funct3_of(spec_encode_s(opcode, funct3, rs1, rs2, imm)) == funct3,
        rs1_of(spec_encode_s(opcode, funct3, rs1, rs2, imm)) == rs1,
        rs2_of(spec_encode_s(opcode, funct3, rs1, rs2, imm)) == rs2,
        spec_imm_s(spec_encode_s(opcode, funct3, rs1, rs2, imm)) == imm,
{
    assert(opcode_of(spec_encode_s(opcode, funct3, rs1, rs2, imm)) == opcode && funct3_of(
        spec_encode_s(opcode, funct3, rs1, rs2, imm),
    ) == funct3 && rs1_of(spec_encode_s(opcode, funct3, rs1, rs2, imm)) == rs1 && rs2_of(
        spec_encode_s(opcode, funct3, rs1, rs2, imm),
    ) == rs2 && spec_imm_s(spec_encode_s(opcode, funct3, rs1, rs2, imm)) == imm) by (bit_vector)
        requires
            opcode < 0x80,
            funct3 < 8,
            rs1 < 32,
            rs2 < 32,
            imm < 0x800 || imm >= 0xffff_f800,
    ;
}

/// Decoding an encoded B-type word recovers every field, including the
/// sign-extended immediate.
pub proof fn lemma_encode_b_fields(opcode: u32, funct3: u32, rs1: u32, rs2: u32, imm: u32)
    requires
        opcode < 0x80,
        funct3 < 8,
        rs1 < 32,
        rs2 < 32,
        fits_imm_b(imm),
    ensures
        opcode_of(spec_encode_b(opcode, funct3, rs1, rs2, imm)) == opcode,
        funct3_of(spec_encode_b(opcode, funct3, rs1, rs2, imm)) == funct3,
        rs1_of(spec_encode_b(opcode, funct3, rs1, rs2, imm)) == rs1,
        rs2_of(spec_encode_b(opcode, funct3, rs1, rs2, imm)) == rs2,
        spec_imm_b(spec_encode_b(opcode, funct3, rs1, rs2, imm)) == imm,
{
    assert(opcode_of(spec_encode_b(opcode, funct3, rs1, rs2, imm)) == opcode && funct3_of(
        spec_encode_b(opcode, funct3, rs1, rs2, imm),
    ) == funct3 && rs1_of(spec_encode_b(opcode, funct3, rs1, rs2, imm)) == rs1 && rs2_of(
        spec_encode_b(opcode, funct3, rs1, rs2, imm),
    ) == rs2 && spec_imm_b(spec_encode_b(opcode, funct3, rs1, rs2, imm)) == imm) by (bit_vector)
        requires
            opcode < 0x80,
            funct3 < 8,
            rs1 < 32,
            rs2 < 32,
            imm % 2 == 0 && (imm < 0x1000 || imm >= 0xffff_f000),
    ;
}

/// Decoding an encoded J-type word recovers every field, including the
/// sign-extended immediate.
pub proof fn lemma_encode_j_fields(opcode: u32, rd: u32, imm: u32)
    requires
        opcode < 0x80,
        rd < 32,
        fits_imm_j(imm),
    ensures
        opcode_of(spec_encode_j(opcode, rd, imm)) == opcode,
        rd_of(spec_encode_j(opcode, rd, imm)) == rd,
        spec_imm_j(spec_encode_j(opcode, rd, imm)) == imm,
{
    assert(opcode_of(spec_encode_j(opcode, rd, imm)) == opcode && rd_of(
        spec_encode_j(opcode, rd, imm),
    ) == rd && spec_imm_j(spec_encode_j(opcode, rd, imm)) == imm) by (bit_vector)
        requires
            opcode < 0x80,
            rd < 32,
            imm % 2 == 0 && (imm < 0x10_0000 || imm >= 0xfff0_0000),
    ;
}

/// Decoding an encoded R-type word recovers every field.
pub proof fn lemma_encode_r_fields(
    opcode: u32,
    funct3: u32,
    funct7: u32,
    rd: u32,
    rs1: u32,
    rs2: u32,
)
    requires
        opcode < 0x80,
        funct3 < 8,
        funct7 < 0x80,
        rd < 32,
        rs1 < 32,
        rs2 < 32,
    ensures
        opcode_of(spec_encode_r(opcode, funct3, funct7, rd, rs1, rs2)) == opcode,
        funct3_of(spec_encode_r(opcode, funct3, funct7, rd, rs1, rs2)) == funct3,
        funct7_of(spec_encode_r(opcode, funct3, funct7, rd, rs1, rs2)) == funct7,
        rd_of(spec_encode_r(opcode, funct3, funct7, rd, rs1, rs2)) == rd,
        rs1_of(spec_encode_r(opcode, funct3, funct7, rd, rs1, rs2)) == rs1,
        rs2_of(spec_encode_r(opcode, funct3, funct7, rd, rs1, rs2)) == rs2,
{
    assert(opcode_of(spec_encode_r(opcode, funct3, funct7, rd, rs1, rs2)) == opcode && funct3_of(
        spec_encode_r(opcode, funct3, funct7, rd, rs1, rs2),
    ) == funct3 && funct7_of(spec_encode_r(opcode, funct3, funct7, rd, rs1, rs2)) == funct7
        && rd_of(spec_encode_r(opcode, funct3, funct7, rd, rs1, rs2)) == rd && rs1_of(
        spec_encode_r(opcode, funct3, funct7, rd, rs1, rs2),
    ) == rs1 && rs2_of(spec_encode_r(opcode, funct3, funct7, rd, rs1, rs2)) == rs2) by (bit_vector)
        requires
            opcode < 0x80,
            funct3 < 8,
            funct7 < 0x80,
            rd < 32,
            rs1 < 32,
            rs2 < 32,
    ;
}

/// Law: round trip for the upper-immediate family, LUI representative.
pub proof fn lemma_round_trip_lui(rd: u32, imm: u32)
    requires
        rd < 32,
        fits_imm_u(imm),
    ensures
        spec_decode(spec_encode_u(0x37, rd, imm)) == Some(Instr::Lui { rd, imm }),
{
    lemma_encode_u_fields(0x37, rd, imm);
}

/// Law: round trip for the upper-immediate family, AUIPC representative.
pub proof fn lemma_round_trip_auipc(rd: u32, imm: u32)
    requires
        rd < 32,
        fits_imm_u(imm),
    ensures
        spec_decode(spec_encode_u(0x17, rd, imm)) == Some(Instr::Auipc { rd, imm }),
{
    lemma_encode_u_fields(0x17, rd, imm);
}

/// Law: round trip for the jump family, JAL representative.
pub proof fn lemma_round_trip_jal(rd: u32, imm: u32)
    requires
        rd < 32,
        fits_imm_j(imm),
    ensures
        spec_decode(spec_encode_j(0x6f, rd, imm)) == Some(Instr::Jal { rd, imm }),
{
    lemma_encode_j_fields(0x6f, rd, imm);
}

/// Law: round trip for the register-jump family, JALR representative.
pub proof fn lemma_round_trip_jalr(rd: u32, rs1: u32, imm: u32)
    requires
        rd < 32,
        rs1 < 32,
        fits_simm12(imm),
    ensures
        spec_decode(spec_encode_i(0x67, 0, rd, rs1, imm)) == Some(Instr::Jalr { rd, rs1, imm }),
{
    lemma_encode_i_fields(0x67, 0, rd, rs1, imm);
}

/// Law: round trip for the branch family, BEQ representative.
pub proof fn lemma_round_trip_beq(rs1: u32, rs2: u32, imm: u32)
    requires
        rs1 < 32,
        rs2 < 32,
        fits_imm_b(imm),
    ensures
        spec_decode(spec_encode_b(0x63, 0, rs1, rs2, imm)) == Some(
            Instr::Branch { op: BranchOp::Beq, rs1, rs2, imm },
        ),
{
    lemma_encode_b_fields(0x63, 0, rs1, rs2, imm);
}

/// Law: round trip for the load family, LW representative.
pub proof fn lemma_round_trip_lw(rd: u32, rs1: u32, imm: u32)
    requires
        rd < 32,
        rs1 < 32,
        fits_simm12(imm),
    ensures
        spec_decode(spec_encode_i(0x03, 2, rd, rs1, imm)) == Some(
            Instr::Load { op: LoadOp::Lw, rd, rs1, imm },
        ),
{
    lemma_encode_i_fields(0x03, 2, rd, rs1, imm);
}

/// Law: round trip for the store family, SW representative.
pub proof fn lemma_round_trip_sw(rs1: u32, rs2: u32, imm: u32)
    requires
        rs1 < 32,
        rs2 < 32,
        fits_simm12(imm),
    ensures
        spec_decode(spec_encode_s(0x23, 2, rs1, rs2, imm)) == Some(
            Instr::Store { op: StoreOp::Sw, rs1, rs2, imm },
        ),
{
    lemma_encode_s_fields(0x23, 2, rs1, rs2, imm);
}

/// Law: round trip for the immediate-ALU family, ADDI representative.
pub proof fn lemma_round_trip_addi(rd: u32, rs1: u32, imm: u32)
    requires
        rd < 32,
        rs1 < 32,
        fits_simm12(imm),
    ensures
        spec_decode(spec_encode_i(0x13, 0, rd, rs1, imm)) == Some(
            Instr::OpImm { op: AluOp::Add, rd, rs1, imm },
        ),
{
    lemma_encode_i_fields(0x13, 0, rd, rs1, imm);
}

/// Law: round trip for the register-ALU family, ADD representative.
pub proof fn lemma_round_trip_add(rd: u32, rs1: u32, rs2: u32)
    requires
        rd < 32,
        rs1 < 32,
        rs2 < 32,
    ensures
        spec_decode(spec_encode_r(0x33, 0, 0, rd, rs1, rs2)) == Some(
            Instr::OpReg { op: AluOp::Add, rd, rs1, rs2 },
        ),
{
    lemma_encode_r_fields(0x33, 0, 0, rd, rs1, rs2);
}

} // verus!
