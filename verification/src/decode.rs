//! Instruction decoding: classifies a raw 32-bit word into one concrete
//! operation with its operand fields.
//!
//! The opcode is bits [6:0] of the word; depending on the opcode family the
//! decoder also extracts funct3 (bits [14:12]), funct7 (bits [31:25]), rd
//! (bits [11:7]), rs1 (bits [19:15]), rs2 (bits [24:20]), and the
//! format-appropriate sign-extended immediate. The set of recognized
//! opcode/funct combinations is closed: any other word is rejected, and the
//! cycle surfaces that as an illegal-instruction fault.

use crate::imm::{
    imm_b,
    imm_i,
    imm_j,
    imm_s,
    imm_u,
    spec_imm_b,
    spec_imm_i,
    spec_imm_j,
    spec_imm_s,
    spec_imm_u,
};
use vstd::prelude::*;

verus! {

/// The comparison a branch instruction applies to rs1 and rs2.
#[derive(Clone, Copy, Debug, PartialEq, Eq, Structural)]
pub enum BranchOp {
    Beq,
    Bne,
    Blt,
    Bge,
    Bltu,
    Bgeu,
}

/// The width and extension of a load.
#[derive(Clone, Copy, Debug, PartialEq, Eq, Structural)]
pub enum LoadOp {
    Lb,
    Lh,
    Lw,
    Lbu,
    Lhu,
}

/// The width of a store.
#[derive(Clone, Copy, Debug, PartialEq, Eq, Structural)]
pub enum StoreOp {
    Sb,
    Sh,
    Sw,
}

/// An arithmetic/logical operation, shared by the immediate and register
/// ALU families. The immediate family has no subtract, matching the base
/// ISA, so `Sub` is only ever decoded from the register family.
#[derive(Clone, Copy, Debug, PartialEq, Eq, Structural)]
pub enum AluOp {
    Add,
    Sub,
    Sll,
    Slt,
    Sltu,
    Xor,
    Srl,
    Sra,
    Or,
    And,
}

/// A decoded instruction: one concrete operation with the operand fields
/// its format carries. Fields the format does not carry do not exist on the
/// variant, so the execution unit can never read an undefined field.
#[derive(Clone, Copy, Debug, PartialEq, Eq, Structural)]
#[allow(inconsistent_fields)]
pub enum Instr {
    Lui { rd: u32, imm: u32 },
    Auipc { rd: u32, imm: u32 },
    Jal { rd: u32, imm: u32 },
    Jalr { rd: u32, rs1: u32, imm: u32 },
    Branch { op: BranchOp, rs1: u32, rs2: u32, imm: u32 },
    Load { op: LoadOp, rd: u32, rs1: u32, imm: u32 },
    Store { op: StoreOp, rs1: u32, rs2: u32, imm: u32 },
    OpImm { op: AluOp, rd: u32, rs1: u32, imm: u32 },
    OpReg { op: AluOp, rd: u32, rs1: u32, rs2: u32 },
}

/// Opcode field: bits [6:0] of the word.
pub open spec fn opcode_of(w: u32) -> u32 {
    w & 0x7f
}

/// Destination register field rd: bits [11:7].
pub open spec fn rd_of(w: u32) -> u32 {
    (w >> 7) & 0x1f
}

/// Minor function field funct3: bits [14:12].
pub open spec fn funct3_of(w: u32) -> u32 {
    (w >> 12) & 0x7
}

/// First source register field rs1: bits [19:15].
pub open spec fn rs1_of(w: u32) -> u32 {
    (w >> 15) & 0x1f
}

/// Second source register field rs2: bits [24:20].
pub open spec fn rs2_of(w: u32) -> u32 {
    (w >> 20) & 0x1f
}

/// Major function field funct7: bits [31:25].
pub open spec fn funct7_of(w: u32) -> u32 {
    (w >> 25) & 0x7f
}

/// The decoded form of `w`: `Some` exactly when the word's opcode/funct
/// combination is one of the recognized RV32I base integer encodings.
pub open spec fn spec_decode(w: u32) -> Option<Instr> {
    let op: u32 = opcode_of(w);
    let rd: u32 = rd_of(w);
    let funct3: u32 = funct3_of(w);
    let rs1: u32 = rs1_of(w);
    let rs2: u32 = rs2_of(w);
    let funct7: u32 = funct7_of(w);
    if op == 0x37 {
        Some(Instr::Lui { rd, imm: spec_imm_u(w) })
    } else if op == 0x17 {
        Some(Instr::Auipc { rd, imm: spec_imm_u(w) })
    } else if op == 0x6f {
        Some(Instr::Jal { rd, imm: spec_imm_j(w) })
    } else if op == 0x67 {
        if funct3 == 0 {
            Some(Instr::Jalr { rd, rs1, imm: spec_imm_i(w) })
        } else {
            None
        }
    } else if op == 0x63 {
        let imm: u32 = spec_imm_b(w);
        if funct3 == 0 {
            Some(Instr::Branch { op: BranchOp::Beq, rs1, rs2, imm })
        } else if funct3 == 1 {
            Some(Instr::Branch { op: BranchOp::Bne, rs1, rs2, imm })
        } else if funct3 == 4 {
            Some(Instr::Branch { op: BranchOp::Blt, rs1, rs2, imm })
        } else if funct3 == 5 {
            Some(Instr::Branch { op: BranchOp::Bge, rs1, rs2, imm })
        } else if funct3 == 6 {
            Some(Instr::Branch { op: BranchOp::Bltu, rs1, rs2, imm })
        } else if funct3 == 7 {
            Some(Instr::Branch { op: BranchOp::Bgeu, rs1, rs2, imm })
        } else {
            None
        }
    } else if op == 0x03 {
        let imm: u32 = spec_imm_i(w);
        if funct3 == 0 {
            Some(Instr::Load { op: LoadOp::Lb, rd, rs1, imm })
        } else if funct3 == 1 {
            Some(Instr::Load { op: LoadOp::Lh, rd, rs1, imm })
        } else if funct3 == 2 {
            Some(Instr::Load { op: LoadOp::Lw, rd, rs1, imm })
        } else if funct3 == 4 {
            Some(Instr::Load { op: LoadOp::Lbu, rd, rs1, imm })
        } else if funct3 == 5 {
            Some(Instr::Load { op: LoadOp::Lhu, rd, rs1, imm })
        } else {
            None
        }
    } else if op == 0x23 {
        let imm: u32 = spec_imm_s(w);
        if funct3 == 0 {
            Some(Instr::Store { op: StoreOp::Sb, rs1, rs2, imm })
        } else if funct3 == 1 {
            Some(Instr::Store { op: StoreOp::Sh, rs1, rs2, imm })
        } else if funct3 == 2 {
            Some(Instr::Store { op: StoreOp::Sw, rs1, rs2, imm })
        } else {
            None
        }
    } else if op == 0x13 {
        let imm: u32 = spec_imm_i(w);
        if funct3 == 0 {
            Some(Instr::OpImm { op: AluOp::Add, rd, rs1, imm })
        } else if funct3 == 1 {
            if funct7 == 0 {
                Some(Instr::OpImm { op: AluOp::Sll, rd, rs1, imm })
            } else {
                None
            }
        } else if funct3 == 2 {
            Some(Instr::OpImm { op: AluOp::Slt, rd, rs1, imm })
        } else if funct3 == 3 {
            Some(Instr::OpImm { op: AluOp::Sltu, rd, rs1, imm })
        } else if funct3 == 4 {
            Some(Instr::OpImm { op: AluOp::Xor, rd, rs1, imm })
        } else if funct3 == 5 {
            if funct7 == 0 {
                Some(Instr::OpImm { op: AluOp::Srl, rd, rs1, imm })
            } else if funct7 == 0x20 {
                Some(Instr::OpImm { op: AluOp::Sra, rd, rs1, imm })
            } else {
                None
            }
        } else if funct3 == 6 {
            Some(Instr::OpImm { op: AluOp::Or, rd, rs1, imm })
        } else {
            Some(Instr::OpImm { op: AluOp::And, rd, rs1, imm })
        }
    } else if op == 0x33 {
        if funct3 == 0 && funct7 == 0 {
            Some(Instr::OpReg { op: AluOp::Add, rd, rs1, rs2 })
        } else if funct3 == 0 && funct7 == 0x20 {
            Some(Instr::OpReg { op: AluOp::Sub, rd, rs1, rs2 })
        } else if funct3 == 1 && funct7 == 0 {
            Some(Instr::OpReg { op: AluOp::Sll, rd, rs1, rs2 })
        } else if funct3 == 2 && funct7 == 0 {
            Some(Instr::OpReg { op: AluOp::Slt, rd, rs1, rs2 })
        } else if funct3 == 3 && funct7 == 0 {
            Some(Instr::OpReg { op: AluOp::Sltu, rd, rs1, rs2 })
        } else if funct3 == 4 && funct7 == 0 {
            Some(Instr::OpReg { op: AluOp::Xor, rd, rs1, rs2 })
        } else if funct3 == 5 && funct7 == 0 {
            Some(Instr::OpReg { op: AluOp::Srl, rd, rs1, rs2 })
        } else if funct3 == 5 && funct7 == 0x20 {
            Some(Instr::OpReg { op: AluOp::Sra, rd, rs1, rs2 })
        } else if funct3 == 6 && funct7 == 0 {
            Some(Instr::OpReg { op: AluOp::Or, rd, rs1, rs2 })
        } else if funct3 == 7 && funct7 == 0 {
            Some(Instr::OpReg { op: AluOp::And, rd, rs1, rs2 })
        } else {
            None
        }
    } else {
        None
    }
}

/// Every register field of a decoded instruction names one of the 32
/// registers. This holds of everything the decoder produces, because rd,
/// rs1, and rs2 are five-bit fields.
pub open spec fn spec_instr_regs_bounded(i: Instr) -> bool {
    match i {
        Instr::Lui { rd, .. } => rd < 32,
        Instr::Auipc { rd, .. } => rd < 32,
        Instr::Jal { rd, .. } => rd < 32,
        Instr::Jalr { rd, rs1, .. } => rd < 32 && rs1 < 32,
        Instr::Branch { rs1, rs2, .. } => rs1 < 32 && rs2 < 32,
        Instr::Load { rd, rs1, .. } => rd < 32 && rs1 < 32,
        Instr::Store { rs1, rs2, .. } => rs1 < 32 && rs2 < 32,
        Instr::OpImm { rd, rs1, .. } => rd < 32 && rs1 < 32,
        Instr::OpReg { rd, rs1, rs2, .. } => rd < 32 && rs1 < 32 && rs2 < 32,
    }
}

/// Law: the decoder only produces register indices below 32.
pub proof fn lemma_decode_fields_bounded(w: u32)
    ensures
        spec_decode(w) matches Some(i) ==> spec_instr_regs_bounded(i),
{
    assert(rd_of(w) < 32 && rs1_of(w) < 32 && rs2_of(w) < 32) by (bit_vector);
}

/// Decodes the raw word `w`, or reports `None` for a word outside the
/// recognized RV32I base integer encodings.
pub fn decode(w: u32) -> (r: Option<Instr>)
    ensures
        r == spec_decode(w),
{
    let op: u32 = w & 0x7f;
    let rd: u32 = (w >> 7) & 0x1f;
    let funct3: u32 = (w >> 12) & 0x7;
    let rs1: u32 = (w >> 15) & 0x1f;
    let rs2: u32 = (w >> 20) & 0x1f;
    let funct7: u32 = (w >> 25) & 0x7f;
    if op == 0x37 {
        Some(Instr::Lui { rd, imm: imm_u(w) })
    } else if op == 0x17 {
        Some(Instr::Auipc { rd, imm: imm_u(w) })
    } else if op == 0x6f {
        Some(Instr::Jal { rd, imm: imm_j(w) })
    } else if op == 0x67 {
        if funct3 == 0 {
            Some(Instr::Jalr { rd, rs1, imm: imm_i(w) })
        } else {
            None
        }
    } else if op == 0x63 {
        let imm: u32 = imm_b(w);
        if funct3 == 0 {
            Some(Instr::Branch { op: BranchOp::Beq, rs1, rs2, imm })
        } else if funct3 == 1 {
            Some(Instr::Branch { op: BranchOp::Bne, rs1, rs2, imm })
        } else if funct3 == 4 {
            Some(Instr::Branch { op: BranchOp::Blt, rs1, rs2, imm })
        } else if funct3 == 5 {
            Some(Instr::Branch { op: BranchOp::Bge, rs1, rs2, imm })
        } else if funct3 == 6 {
            Some(Instr::Branch { op: BranchOp::Bltu, rs1, rs2, imm })
        } else if funct3 == 7 {
            Some(Instr::Branch { op: BranchOp::Bgeu, rs1, rs2, imm })
        } else {
            None
        }
    } else if op == 0x03 {
        let imm: u32 = imm_i(w);
        if funct3 == 0 {
            Some(Instr::Load { op: LoadOp::Lb, rd, rs1, imm })
        } else if funct3 == 1 {
            Some(Instr::Load { op: LoadOp::Lh, rd, rs1, imm })
        } else if funct3 == 2 {
            Some(Instr::Load { op: LoadOp::Lw, rd, rs1, imm })
        } else if funct3 == 4 {
            Some(Instr::Load { op: LoadOp::Lbu, rd, rs1, imm })
        } else if funct3 == 5 {
            Some(Instr::Load { op: LoadOp::Lhu, rd, rs1, imm })
        } else {
            None
        }
    } else if op == 0x23 {
        let imm: u32 = imm_s(w);
        if funct3 == 0 {
            Some(Instr::Store { op: StoreOp::Sb, rs1, rs2, imm })
        } else if funct3 == 1 {
            Some(Instr::Store { op: StoreOp::Sh, rs1, rs2, imm })
        } else if funct3 == 2 {
            Some(Instr::Store { op: StoreOp::Sw, rs1, rs2, imm })
        } else {
            None
        }
    } else if op == 0x13 {
        let imm: u32 = imm_i(w);
        if funct3 == 0 {
            Some(Instr::OpImm { op: AluOp::Add, rd, rs1, imm })
        } else if funct3 == 1 {
            if funct7 == 0 {
                Some(Instr::OpImm { op: AluOp::Sll, rd, rs1, imm })
            } else {
                None
            }
        } else if funct3 == 2 {
            Some(Instr::OpImm { op: AluOp::Slt, rd, rs1, imm })
        } else if funct3 == 3 {
            Some(Instr::OpImm { op: AluOp::Sltu, rd, rs1, imm })
        } else if funct3 == 4 {
            Some(Instr::OpImm { op: AluOp::Xor, rd, rs1, imm })
        } else if funct3 == 5 {
            if funct7 == 0 {
                Some(Instr::OpImm { op: AluOp::Srl, rd, rs1, imm })
            } else if funct7 == 0x20 {
                Some(Instr::OpImm { op: AluOp::Sra, rd, rs1, imm })
            } else {
                None
            }
        } else if funct3 == 6 {
            Some(Instr::OpImm { op: AluOp::Or, rd, rs1, imm })
        } else {
            Some(Instr::OpImm { op: AluOp::And, rd, rs1, imm })
        }
    } else if op == 0x33 {
        if funct3 == 0 && funct7 == 0 {
            Some(Instr::OpReg { op: AluOp::Add, rd, rs1, rs2 })
        } else if funct3 == 0 && funct7 == 0x20 {
            Some(Instr::OpReg { op: AluOp::Sub, rd, rs1, rs2 })
        } else if funct3 == 1 && funct7 == 0 {
            Some(Instr::OpReg { op: AluOp::Sll, rd, rs1, rs2 })
        } else if funct3 == 2 && funct7 == 0 {
            Some(Instr::OpReg { op: AluOp::Slt, rd, rs1, rs2 })
        } else if funct3 == 3 && funct7 == 0 {
            Some(Instr::OpReg { op: AluOp::Sltu, rd, rs1, rs2 })
        } else if funct3 == 4 && funct7 == 0 {
            Some(Instr::OpReg { op: AluOp::Xor, rd, rs1, rs2 })
        } else if funct3 == 5 && funct7 == 0 {
            Some(Instr::OpReg { op: AluOp::Srl, rd, rs1, rs2 })
        } else if funct3 == 5 && funct7 == 0x20 {
            Some(Instr::OpReg { op: AluOp::Sra, rd, rs1, rs2 })
        } else if funct3 == 6 && funct7 == 0 {
            Some(Instr::OpReg { op: AluOp::Or, rd, rs1, rs2 })
        } else if funct3 == 7 && funct7 == 0 {
            Some(Instr::OpReg { op: AluOp::And, rd, rs1, rs2 })
        } else {
            None
        }
    } else {
        None
    }
}

} // verus!
