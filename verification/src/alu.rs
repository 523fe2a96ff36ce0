//! Arithmetic, logical, shift, and comparison operations shared by the
//! immediate and register ALU families, together with wrapping 32-bit
//! arithmetic and the sign/zero extensions used by loads.

use crate::decode::{AluOp, BranchOp};
use vstd::prelude::*;

verus! {

/// `a + b` modulo 2^32.
pub open spec fn wrap_add(a: u32, b: u32) -> u32 {
    ((a + b) % 0x1_0000_0000) as u32
}

/// `a - b` modulo 2^32.
pub open spec fn wrap_sub(a: u32, b: u32) -> u32 {
    ((a + 0x1_0000_0000 - b) % 0x1_0000_0000) as u32
}

/// A byte value sign-extended from bit 7 to 32 bits.
pub open spec fn spec_sext8(v: u32) -> u32
    recommends
        v < 0x100,
{
    if v >= 0x80 {
        v | 0xffff_ff00
    } else {
        v
    }
}

/// A halfword value sign-extended from bit 15 to 32 bits.
pub open spec fn spec_sext16(v: u32) -> u32
    recommends
        v < 0x1_0000,
{
    if v >= 0x8000 {
        v | 0xffff_0000
    } else {
        v
    }
}

/// The result of one ALU operation on operands `a` and `b`. Shifts use
/// only the low five bits of `b` as the shift amount; an arithmetic right
/// shift replicates bit 31 of `a` into the vacated positions; set-less-than
/// produces 1 or 0.
pub open spec fn spec_alu(op: AluOp, a: u32, b: u32) -> u32 {
    let sh: u32 = b & 0x1f;
    match op {
        AluOp::Add => wrap_add(a, b),
        AluOp::Sub => wrap_sub(a, b),
        AluOp::Sll => a << sh,
        AluOp::Slt => if (a as i32) < (b as i32) {
            1
        } else {
            0
        },
        AluOp::Sltu => if a < b {
            1
        } else {
            0
        },
        AluOp::Xor => a ^ b,
        AluOp::Srl => a >> sh,
        AluOp::Sra => if a >> 31 == 1 && sh != 0 {
            (a >> sh) | (0xffff_ffffu32 << ((32 - sh) as u32))
        } else {
            a >> sh
        },
        AluOp::Or => a | b,
        AluOp::And => a & b,
    }
}

/// Whether a branch with comparison `op` is taken on register values `a`
/// and `b`. The signed comparisons read the operands as two's-complement
/// 32-bit values.
pub open spec fn spec_branch_taken(op: BranchOp, a: u32, b: u32) -> bool {
    match op {
        BranchOp::Beq => a == b,
        BranchOp::Bne => a != b,
        BranchOp::Blt => (a as i32) < (b as i32),
        BranchOp::Bge => (a as i32) >= (b as i32),
        BranchOp::Bltu => a < b,
        BranchOp::Bgeu => a >= b,
    }
}

/// Adds with wraparound on 32-bit overflow.
pub fn wadd(a: u32, b: u32) -> (r: u32)
    ensures
        r == wrap_add(a, b),
{
    let s: u64 = a as u64 + b as u64;
    (s % 0x1_0000_0000u64) as u32
}

/// Subtracts with wraparound on 32-bit underflow.
pub fn wsub(a: u32, b: u32) -> (r: u32)
    ensures
        r == wrap_sub(a, b),
{
    let s: u64 = a as u64 + 0x1_0000_0000u64 - b as u64;
    (s % 0x1_0000_0000u64) as u32
}

/// Sign-extends a byte value to 32 bits.
pub fn sext8(v: u32) -> (r: u32)
    requires
        v < 0x100,
    ensures
        r == spec_sext8(v),
{
    if v >= 0x80 {
        v | 0xffff_ff00
    } else {
        v
    }
}

/// Sign-extends a halfword value to 32 bits.
pub fn sext16(v: u32) -> (r: u32)
    requires
        v < 0x1_0000,
    ensures
        r == spec_sext16(v),
{
    if v >= 0x8000 {
        v | 0xffff_0000
    } else {
        v
    }
}

/// Extracts the five-bit shift amount from `b`.
fn shamt5(b: u32) -> (r: u32)
    ensures
        r == b & 0x1f,
        r < 32,
{
    let r: u32 = b & 0x1f;
    proof {
        assert(b & 0x1f < 32) by (bit_vector);
    }
    r
}

/// Computes one ALU operation on operands `a` and `b`.
pub fn alu_value(op: AluOp, a: u32, b: u32) -> (r: u32)
    ensures
        r == spec_alu(op, a, b),
{
    match op {
        AluOp::Add => wadd(a, b),
        AluOp::Sub => wsub(a, b),
        AluOp::Sll => {
            let sh: u32 = shamt5(b);
            a << sh
        },
        AluOp::Slt => {
            if (a as i32) < (b as i32) {
                1
            } else {
                0
            }
        },
        AluOp::Sltu => {
            if a < b {
                1
            } else {
                0
            }
        },
        AluOp::Xor => a ^ b,
        AluOp::Srl => {
            let sh: u32 = shamt5(b);
            a >> sh
        },
        AluOp::Sra => {
            let sh: u32 = shamt5(b);
            if a >> 31 == 1 && sh != 0 {
                (a >> sh) | (0xffff_ffffu32 << (32 - sh))
            } else {
                a >> sh
            }
        },
        AluOp::Or => a | b,
        AluOp::And => a & b,
    }
}

} // verus!
