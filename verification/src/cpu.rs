//! The simulator: register file, program counter, and memory image,
//! driven by a fetch-decode-execute-advance cycle.
//!
//! The whole cycle is specified by [`spec_step`], a mathematical function
//! from machine state to machine state or fault, and [`RV32I::tick`] is
//! proved to follow it exactly. Each instruction performs at most one
//! register write, at most one program-counter update, and at most one
//! memory write. Non-control-flow instructions never touch the program
//! counter; the cycle advances it by 4 after them. Control-flow
//! instructions are the sole writers of the program counter in their
//! cycle, so a redirect is never additionally advanced.
//!
//! A fault (out-of-bounds access or illegal instruction) aborts the step
//! with the machine state exactly as it was before the faulting access: no
//! partial mutation is ever visible.

use crate::alu::{
    alu_value,
    spec_alu,
    spec_branch_taken,
    spec_sext8,
    spec_sext16,
    sext16,
    sext8,
    wadd,
    wrap_add,
};
use crate::decode::{
    decode,
    lemma_decode_fields_bounded,
    spec_decode,
    spec_instr_regs_bounded,
    AluOp,
    BranchOp,
    Instr,
    LoadOp,
    StoreOp,
};
use crate::mem::{
    spec_in_bounds,
    spec_le16,
    spec_le32,
    spec_load_bytes,
    spec_read,
    spec_write,
    Memory,
};
use crate::regs::{spec_get_reg, spec_set_reg, RegFile};
use crate::Fault;
use vstd::prelude::*;

verus! {

/// The mathematical model of the whole machine: the program counter, the
/// 32 register values, and the bytes of the memory image.
#[verifier::ext_equal]
pub struct MachineState {
    pub pc: u32,
    pub regs: Seq<u32>,
    pub mem: Seq<u8>,
}

/// A well-formed machine state: exactly 32 registers, and the slot backing
/// register 0 holds zero.
pub open spec fn state_wf(s: MachineState) -> bool {
    s.regs.len() == 32 && s.regs[0] == 0
}

/// The number of bytes a load reads.
pub open spec fn load_width(op: LoadOp) -> u32 {
    match op {
        LoadOp::Lb => 1,
        LoadOp::Lh => 2,
        LoadOp::Lw => 4,
        LoadOp::Lbu => 1,
        LoadOp::Lhu => 2,
    }
}

/// The number of bytes a store writes.
pub open spec fn store_width(op: StoreOp) -> u32 {
    match op {
        StoreOp::Sb => 1,
        StoreOp::Sh => 2,
        StoreOp::Sw => 4,
    }
}

/// The value a load places in rd: the addressed bytes, zero- or
/// sign-extended according to the operation.
pub open spec fn spec_load_value(op: LoadOp, mem: Seq<u8>, a: int) -> u32
    recommends
        0 <= a,
        a + load_width(op) <= mem.len(),
{
    match op {
        LoadOp::Lb => spec_sext8(mem[a] as u32),
        LoadOp::Lh => spec_sext16(spec_le16(mem, a)),
        LoadOp::Lw => spec_le32(mem, a),
        LoadOp::Lbu => mem[a] as u32,
        LoadOp::Lhu => spec_le16(mem, a),
    }
}

/// The effect of one decoded instruction on machine state `s`: the next
/// state, or the fault that aborts the step. The program counter of the
/// next state is the control-flow target for jumps and taken branches and
/// `s.pc + 4` (wrapping) otherwise; JALR clears bit 0 of its target.
pub open spec fn spec_exec_instr(s: MachineState, i: Instr) -> Result<MachineState, Fault>
    recommends
        state_wf(s),
        spec_instr_regs_bounded(i),
{
    match i {
        Instr::Lui { rd, imm } => Ok(
            MachineState {
                pc: wrap_add(s.pc, 4),
                regs: spec_set_reg(s.regs, rd, imm),
                mem: s.mem,
            },
        ),
        Instr::Auipc { rd, imm } => Ok(
            MachineState {
                pc: wrap_add(s.pc, 4),
                regs: spec_set_reg(s.regs, rd, wrap_add(imm, s.pc)),
                mem: s.mem,
            },
        ),
        Instr::Jal { rd, imm } => Ok(
            MachineState {
                pc: wrap_add(s.pc, imm),
                regs: spec_set_reg(s.regs, rd, wrap_add(s.pc, 4)),
                mem: s.mem,
            },
        ),
        Instr::Jalr { rd, rs1, imm } => Ok(
            MachineState {
                pc: wrap_add(spec_get_reg(s.regs, rs1), imm) & 0xffff_fffe,
                regs: spec_set_reg(s.regs, rd, wrap_add(s.pc, 4)),
                mem: s.mem,
            },
        ),
        Instr::Branch { op, rs1, rs2, imm } => Ok(
            MachineState {
                pc: if spec_branch_taken(
                    op,
                    spec_get_reg(s.regs, rs1),
                    spec_get_reg(s.regs, rs2),
                ) {
                    wrap_add(s.pc, imm)
                } else {
                    wrap_add(s.pc, 4)
                },
                regs: s.regs,
                mem: s.mem,
            },
        ),
        Instr::Load { op, rd, rs1, imm } => {
            let a: u32 = wrap_add(spec_get_reg(s.regs, rs1), imm);
            if spec_in_bounds(s.mem, a, load_width(op)) {
                Ok(
                    MachineState {
                        pc: wrap_add(s.pc, 4),
                        regs: spec_set_reg(s.regs, rd, spec_load_value(op, s.mem, a as int)),
                        mem: s.mem,
                    },
                )
            } else {
                Err(Fault::OutOfBounds)
            }
        },
        Instr::Store { op, rs1, rs2, imm } => {
            let a: u32 = wrap_add(spec_get_reg(s.regs, rs1), imm);
            if spec_in_bounds(s.mem, a, store_width(op)) {
                Ok(
                    MachineState {
                        pc: wrap_add(s.pc, 4),
                        regs: s.regs,
                        mem: spec_write(s.mem, a, store_width(op), spec_get_reg(s.regs, rs2)),
                    },
                )
            } else {
                Err(Fault::OutOfBounds)
            }
        },
        Instr::OpImm { op, rd, rs1, imm } => Ok(
            MachineState {
                pc: wrap_add(s.pc, 4),
                regs: spec_set_reg(s.regs, rd, spec_alu(op, spec_get_reg(s.regs, rs1), imm)),
                mem: s.mem,
            },
        ),
        Instr::OpReg { op, rd, rs1, rs2 } => Ok(
            MachineState {
                pc: wrap_add(s.pc, 4),
                regs: spec_set_reg(
                    s.regs,
                    rd,
                    spec_alu(op, spec_get_reg(s.regs, rs1), spec_get_reg(s.regs, rs2)),
                ),
                mem: s.mem,
            },
        ),
    }
}

/// One full cycle on machine state `s`: fetch the word at the program
/// counter (an out-of-bounds fetch faults), decode it (an unrecognized
/// word faults), execute it. A fault leaves the state untouched.
pub open spec fn spec_step(s: MachineState) -> Result<MachineState, Fault>
    recommends
        state_wf(s),
{
    if !spec_in_bounds(s.mem, s.pc, 4) {
        Err(Fault::OutOfBounds)
    } else {
        match spec_decode(spec_le32(s.mem, s.pc as int)) {
            Some(i) => spec_exec_instr(s, i),
            None => Err(Fault::IllegalInstruction),
        }
    }
}

/// The simulator instance: one program counter, one register file, one
/// memory image, mutated by exactly one instruction effect per cycle.
pub struct RV32I {
    pub pc: u32,
    pub rvg: RegFile,
    pub mem: Memory,
}

impl View for RV32I {
    type V = MachineState;

    open spec fn view(&self) -> MachineState {
        MachineState { pc: self.pc, regs: self.rvg@, mem: self.mem@ }
    }
}

impl RV32I {
    /// The simulator's state is well formed: see [`state_wf`].
    pub open spec fn wf(&self) -> bool {
        state_wf(self@)
    }

    /// Creates a simulator with `memory_capacity` bytes of zeroed memory,
    /// all registers zero, and the program counter at `entry_pc`.
    pub fn construct(memory_capacity: usize, entry_pc: u32) -> (r: RV32I)
        ensures
            r.wf(),
            r@.pc == entry_pc,
            forall|i: int| 0 <= i < 32 ==> r@.regs[i] == 0u32,
            r@.mem.len() == memory_capacity,
            forall|i: int| 0 <= i < memory_capacity ==> r@.mem[i] == 0u8,
    {
        RV32I { pc: entry_pc, rvg: RegFile::new(), mem: Memory::new(memory_capacity) }
    }

    /// Creates a simulator with one MiB of zeroed memory and the program
    /// counter at zero.
    pub fn new() -> (r: RV32I)
        ensures
            r.wf(),
            r@.pc == 0,
            forall|i: int| 0 <= i < 32 ==> r@.regs[i] == 0u32,
            r@.mem.len() == 0x10_0000,
            forall|i: int| 0 <= i < 0x10_0000 ==> r@.mem[i] == 0u8,
    {
        Self::construct(0x10_0000, 0)
    }

    /// Copies `bytes` into memory starting at `dest_addr`, for loading a
    /// program image before execution begins. Faults, copying nothing,
    /// when the image would overflow memory.
    pub fn load_bytes(&mut self, dest_addr: u32, bytes: &Vec<u8>) -> (r: Result<(), Fault>)
        requires
            old(self).wf(),
        ensures
            final(self).wf(),
            final(self)@.pc == old(self)@.pc,
            final(self)@.regs == old(self)@.regs,
            dest_addr + bytes@.len() <= old(self)@.mem.len() ==> r == Ok::<(), Fault>(())
                && final(self)@.mem == spec_load_bytes(old(self)@.mem, dest_addr, bytes@),
            dest_addr + bytes@.len() > old(self)@.mem.len() ==> r == Err::<(), Fault>(
                Fault::OutOfBounds,
            ) && final(self)@.mem == old(self)@.mem,
    {
        self.mem.load_bytes(dest_addr, bytes)
    }

    /// Reads register `index`; register 0 reads as zero.
    pub fn read_register(&self, index: u32) -> (r: u32)
        requires
            self.wf(),
            index < 32,
        ensures
            r == spec_get_reg(self@.regs, index),
    {
        self.rvg.get(index)
    }

    /// Reads the program counter.
    pub fn read_pc(&self) -> (r: u32)
        ensures
            r == self@.pc,
    {
        self.pc
    }

    /// Reads `width` bytes (1, 2, or 4) of memory at `addr` as an unsigned
    /// little-endian integer, without side effects; faults when the access
    /// is out of bounds.
    pub fn read_memory(&self, addr: u32, width: u32) -> (r: Result<u32, Fault>)
        requires
            width == 1 || width == 2 || width == 4,
        ensures
            spec_in_bounds(self@.mem, addr, width) ==> r == Ok::<u32, Fault>(
                spec_read(self@.mem, addr, width),
            ),
            !spec_in_bounds(self@.mem, addr, width) ==> r == Err::<u32, Fault>(Fault::OutOfBounds),
    {
        self.mem.read(addr, width)
    }

    /// Fetches the instruction word at the program counter; faults when
    /// any of its four bytes lies outside memory.
    pub fn fetch_instr(&self) -> (r: Result<u32, Fault>)
        ensures
            spec_in_bounds(self@.mem, self@.pc, 4) ==> r == Ok::<u32, Fault>(
                spec_le32(self@.mem, self@.pc as int),
            ),
            !spec_in_bounds(self@.mem, self@.pc, 4) ==> r == Err::<u32, Fault>(Fault::OutOfBounds),
    {
        self.mem.read(self.pc, 4)
    }

    /// Advances the program counter by 4 (wrapping); registers and memory
    /// are untouched. Applied by the cycle after every non-control-flow
    /// instruction.
    fn advance(&mut self)
        requires
            old(self).wf(),
        ensures
            final(self).wf(),
            final(self)@.pc == wrap_add(old(self)@.pc, 4),
            final(self)@.regs == old(self)@.regs,
            final(self)@.mem == old(self)@.mem,
    {
        self.pc = wadd(self.pc, 4);
    }

    /// LUI: rd = immediate. Does not touch the program counter.
    fn lui(&mut self, rd: u32, imm: u32)
        requires
            old(self).wf(),
            rd < 32,
        ensures
            final(self).wf(),
            final(self)@.regs == spec_set_reg(old(self)@.regs, rd, imm),
            final(self)@.pc == old(self)@.pc,
            final(self)@.mem == old(self)@.mem,
    {
        self.rvg.set(rd, imm);
    }

    /// AUIPC: rd = immediate + program counter (wrapping). Does not touch
    /// the program counter.
    fn auipc(&mut self, rd: u32, imm: u32)
        requires
            old(self).wf(),
            rd < 32,
        ensures
            final(self).wf(),
            final(self)@.regs == spec_set_reg(old(self)@.regs, rd, wrap_add(imm, old(self)@.pc)),
            final(self)@.pc == old(self)@.pc,
            final(self)@.mem == old(self)@.mem,
    {
        let v: u32 = wadd(imm, self.pc);
        self.rvg.set(rd, v);
    }

    /// JAL: rd = program counter + 4, then the program counter moves by
    /// the J-type immediate, relative to the jump's own address.
    fn jal(&mut self, rd: u32, imm: u32)
        requires
            old(self).wf(),
            rd < 32,
        ensures
            final(self).wf(),
            final(self)@.regs == spec_set_reg(old(self)@.regs, rd, wrap_add(old(self)@.pc, 4)),
            final(self)@.pc == wrap_add(old(self)@.pc, imm),
            final(self)@.mem == old(self)@.mem,
    {
        let link: u32 = wadd(self.pc, 4);
        let target: u32 = wadd(self.pc, imm);
        self.rvg.set(rd, link);
        self.pc = target;
    }

    /// JALR: rd = program counter + 4, then the program counter becomes
    /// rs1 + immediate with bit 0 cleared. The target is computed from
    /// rs1's value before the link write, so rd == rs1 behaves correctly.
    fn jalr(&mut self, rd: u32, rs1: u32, imm: u32)
        requires
            old(self).wf(),
            rd < 32,
            rs1 < 32,
        ensures
            final(self).wf(),
            final(self)@.regs == spec_set_reg(old(self)@.regs, rd, wrap_add(old(self)@.pc, 4)),
            final(self)@.pc == (wrap_add(spec_get_reg(old(self)@.regs, rs1), imm) & 0xffff_fffe),
            final(self)@.mem == old(self)@.mem,
    {
        let target: u32 = wadd(self.rvg.get(rs1), imm) & 0xffff_fffe;
        let link: u32 = wadd(self.pc, 4);
        self.rvg.set(rd, link);
        self.pc = target;
    }

    /// Branch dispatch: applies the comparison selected by `op` and moves
    /// the program counter to the branch target when it holds, or past the
    /// branch when it does not. Registers and memory are untouched.
    fn b_type(&mut self, op: BranchOp, rs1: u32, rs2: u32, imm: u32)
        requires
            old(self).wf(),
            rs1 < 32,
            rs2 < 32,
        ensures
            final(self).wf(),
            final(self)@.regs == old(self)@.regs,
            final(self)@.mem == old(self)@.mem,
            final(self)@.pc == if spec_branch_taken(
                op,
                spec_get_reg(old(self)@.regs, rs1),
                spec_get_reg(old(self)@.regs, rs2),
            ) {
                wrap_add(old(self)@.pc, imm)
            } else {
                wrap_add(old(self)@.pc, 4)
            },
    {
        match op {
            BranchOp::Beq => self.beq(rs1, rs2, imm),
            BranchOp::Bne => self.bne(rs1, rs2, imm),
            BranchOp::Blt => self.blt(rs1, rs2, imm),
            BranchOp::Bge => self.bge(rs1, rs2, imm),
            BranchOp::Bltu => self.bltu(rs1, rs2, imm),
            BranchOp::Bgeu => self.bgeu(rs1, rs2, imm),
        }
    }

    /// BEQ: branch when rs1 == rs2.
    fn beq(&mut self, rs1: u32, rs2: u32, imm: u32)
        requires
            old(self).wf(),
            rs1 < 32,
            rs2 < 32,
        ensures
            final(self).wf(),
            final(self)@.regs == old(self)@.regs,
            final(self)@.mem == old(self)@.mem,
            final(self)@.pc == if spec_get_reg(old(self)@.regs, rs1) == spec_get_reg(
                old(self)@.regs,
                rs2,
            ) {
                wrap_add(old(self)@.pc, imm)
            } else {
                wrap_add(old(self)@.pc, 4)
            },
    {
        let taken: bool = self.rvg.get(rs1) == self.rvg.get(rs2);
        self.pc = if taken {
            wadd(self.pc, imm)
        } else {
            wadd(self.pc, 4)
        };
    }

    /// BNE: branch when rs1 != rs2.
    fn bne(&mut self, rs1: u32, rs2: u32, imm: u32)
        requires
            old(self).wf(),
            rs1 < 32,
            rs2 < 32,
        ensures
            final(self).wf(),
            final(self)@.regs == old(self)@.regs,
            final(self)@.mem == old(self)@.mem,
            final(self)@.pc == if spec_get_reg(old(self)@.regs, rs1) != spec_get_reg(
                old(self)@.regs,
                rs2,
            ) {
                wrap_add(old(self)@.pc, imm)
            } else {
                wrap_add(old(self)@.pc, 4)
            },
    {
        let taken: bool = self.rvg.get(rs1) != self.rvg.get(rs2);
        self.pc = if taken {
            wadd(self.pc, imm)
        } else {
            wadd(self.pc, 4)
        };
    }

    /// BLT: branch when rs1 < rs2 as signed values.
    fn blt(&mut self, rs1: u32, rs2: u32, imm: u32)
        requires
            old(self).wf(),
            rs1 < 32,
            rs2 < 32,
        ensures
            final(self).wf(),
            final(self)@.regs == old(self)@.regs,
            final(self)@.mem == old(self)@.mem,
            final(self)@.pc == if (spec_get_reg(old(self)@.regs, rs1) as i32) < (spec_get_reg(
                old(self)@.regs,
                rs2,
            ) as i32) {
                wrap_add(old(self)@.pc, imm)
            } else {
                wrap_add(old(self)@.pc, 4)
            },
    {
        let taken: bool = (self.rvg.get(rs1) as i32) < (self.rvg.get(rs2) as i32);
        self.pc = if taken {
            wadd(self.pc, imm)
        } else {
            wadd(self.pc, 4)
        };
    }

    /// BGE: branch when rs1 >= rs2 as signed values.
    fn bge(&mut self, rs1: u32, rs2: u32, imm: u32)
        requires
            old(self).wf(),
            rs1 < 32,
            rs2 < 32,
        ensures
            final(self).wf(),
            final(self)@.regs == old(self)@.regs,
            final(self)@.mem == old(self)@.mem,
            final(self)@.pc == if (spec_get_reg(old(self)@.regs, rs1) as i32) >= (spec_get_reg(
                old(self)@.regs,
                rs2,
            ) as i32) {
                wrap_add(old(self)@.pc, imm)
            } else {
                wrap_add(old(self)@.pc, 4)
            },
    {
        let taken: bool = (self.rvg.get(rs1) as i32) >= (self.rvg.get(rs2) as i32);
        self.pc = if taken {
            wadd(self.pc, imm)
        } else {
            wadd(self.pc, 4)
        };
    }

    /// BLTU: branch when rs1 < rs2 as unsigned values.
    fn bltu(&mut self, rs1: u32, rs2: u32, imm: u32)
        requires
            old(self).wf(),
            rs1 < 32,
            rs2 < 32,
        ensures
            final(self).wf(),
            final(self)@.regs == old(self)@.regs,
            final(self)@.mem == old(self)@.mem,
            final(self)@.pc == if spec_get_reg(old(self)@.regs, rs1) < spec_get_reg(
                old(self)@.regs,
                rs2,
            ) {
                wrap_add(old(self)@.pc, imm)
            } else {
                wrap_add(old(self)@.pc, 4)
            },
    {
        let taken: bool = self.rvg.get(rs1) < self.rvg.get(rs2);
        self.pc = if taken {
            wadd(self.pc, imm)
        } else {
            wadd(self.pc, 4)
        };
    }

    /// BGEU: branch when rs1 >= rs2 as unsigned values.
    fn bgeu(&mut self, rs1: u32, rs2: u32, imm: u32)
        requires
            old(self).wf(),
            rs1 < 32,
            rs2 < 32,
        ensures
            final(self).wf(),
            final(self)@.regs == old(self)@.regs,
            final(self)@.mem == old(self)@.mem,
            final(self)@.pc == if spec_get_reg(old(self)@.regs, rs1) >= spec_get_reg(
                old(self)@.regs,
                rs2,
            ) {
                wrap_add(old(self)@.pc, imm)
            } else {
                wrap_add(old(self)@.pc, 4)
            },
    {
        let taken: bool = self.rvg.get(rs1) >= self.rvg.get(rs2);
        self.pc = if taken {
            wadd(self.pc, imm)
        } else {
            wadd(self.pc, 4)
        };
    }

    /// Load: reads 1, 2, or 4 bytes at rs1 + immediate, extends per the
    /// operation, and writes rd. An out-of-bounds access faults with the
    /// whole state untouched. Does not touch the program counter.
    fn load(&mut self, op: LoadOp, rd: u32, rs1: u32, imm: u32) -> (r: Result<(), Fault>)
        requires
            old(self).wf(),
            rd < 32,
            rs1 < 32,
        ensures
            final(self).wf(),
            ({
                let a = wrap_add(spec_get_reg(old(self)@.regs, rs1), imm);
                if spec_in_bounds(old(self)@.mem, a, load_width(op)) {
                    r == Ok::<(), Fault>(()) && final(self)@.regs == spec_set_reg(
                        old(self)@.regs,
                        rd,
                        spec_load_value(op, old(self)@.mem, a as int),
                    ) && final(self)@.pc == old(self)@.pc && final(self)@.mem == old(self)@.mem
                } else {
                    r == Err::<(), Fault>(Fault::OutOfBounds) && final(self)@ == old(self)@
                }
            }),
    {
        let a: u32 = wadd(self.rvg.get(rs1), imm);
        let width: u32 = match op {
            LoadOp::Lb => 1,
            LoadOp::Lh => 2,
            LoadOp::Lw => 4,
            LoadOp::Lbu => 1,
            LoadOp::Lhu => 2,
        };
        let raw: u32 = match self.mem.read(a, width) {
            Ok(v) => v,
            Err(f) => {
                return Err(f);
            },
        };
        let v: u32 = match op {
            LoadOp::Lb => sext8(raw),
            LoadOp::Lh => sext16(raw),
            LoadOp::Lw => raw,
            LoadOp::Lbu => raw,
            LoadOp::Lhu => raw,
        };
        self.rvg.set(rd, v);
        Ok(())
    }

    /// Store: writes the low 1, 2, or 4 bytes of rs2 to memory at rs1 +
    /// immediate. An out-of-bounds access faults with the whole state
    /// untouched. Does not touch the program counter.
    fn store(&mut self, op: StoreOp, rs1: u32, rs2: u32, imm: u32) -> (r: Result<(), Fault>)
        requires
            old(self).wf(),
            rs1 < 32,
            rs2 < 32,
        ensures
            final(self).wf(),
            ({
                let a = wrap_add(spec_get_reg(old(self)@.regs, rs1), imm);
                if spec_in_bounds(old(self)@.mem, a, store_width(op)) {
                    r == Ok::<(), Fault>(()) && final(self)@.mem == spec_write(
                        old(self)@.mem,
                        a,
                        store_width(op),
                        spec_get_reg(old(self)@.regs, rs2),
                    ) && final(self)@.pc == old(self)@.pc && final(self)@.regs == old(self)@.regs
                } else {
                    r == Err::<(), Fault>(Fault::OutOfBounds) && final(self)@ == old(self)@
                }
            }),
    {
        let a: u32 = wadd(self.rvg.get(rs1), imm);
        let width: u32 = match op {
            StoreOp::Sb => 1,
            StoreOp::Sh => 2,
            StoreOp::Sw => 4,
        };
        let v: u32 = self.rvg.get(rs2);
        match self.mem.write(a, width, v) {
            Ok(()) => Ok(()),
            Err(f) => Err(f),
        }
    }

    /// Immediate ALU: rd = op(rs1, immediate). Does not touch the program
    /// counter.
    fn op_imm(&mut self, op: AluOp, rd: u32, rs1: u32, imm: u32)
        requires
            old(self).wf(),
            rd < 32,
            rs1 < 32,
        ensures
            final(self).wf(),
            final(self)@.regs == spec_set_reg(
                old(self)@.regs,
                rd,
                spec_alu(op, spec_get_reg(old(self)@.regs, rs1), imm),
            ),
            final(self)@.pc == old(self)@.pc,
            final(self)@.mem == old(self)@.mem,
    {
        let a: u32 = self.rvg.get(rs1);
        let v: u32 = alu_value(op, a, imm);
        self.rvg.set(rd, v);
    }

    /// Register ALU: rd = op(rs1, rs2). Does not touch the program
    /// counter.
    fn op_reg(&mut self, op: AluOp, rd: u32, rs1: u32, rs2: u32)
        requires
            old(self).wf(),
            rd < 32,
            rs1 < 32,
            rs2 < 32,
        ensures
            final(self).wf(),
            final(self)@.regs == spec_set_reg(
                old(self)@.regs,
                rd,
                spec_alu(op, spec_get_reg(old(self)@.regs, rs1), spec_get_reg(old(self)@.regs, rs2)),
            ),
            final(self)@.pc == old(self)@.pc,
            final(self)@.mem == old(self)@.mem,
    {
        let a: u32 = self.rvg.get(rs1);
        let b: u32 = self.rvg.get(rs2);
        let v: u32 = alu_value(op, a, b);
        self.rvg.set(rd, v);
    }

    /// Executes exactly one cycle: fetch, decode, execute, advance. The
    /// result and the state change follow [`spec_step`] exactly; on a
    /// fault the state is exactly as it was before the step.
    pub fn tick(&mut self) -> (r: Result<(), Fault>)
        requires
            old(self).wf(),
        ensures
            final(self).wf(),
            match spec_step(old(self)@) {
                Ok(s1) => r == Ok::<(), Fault>(()) && final(self)@ == s1,
                Err(f) => r == Err::<(), Fault>(f) && final(self)@ == old(self)@,
            },
    {
        let w: u32 = match self.fetch_instr() {
            Ok(w) => w,
            Err(f) => {
                return Err(f);
            },
        };
        let i: Instr = match decode(w) {
            Some(i) => i,
            None => {
                return Err(Fault::IllegalInstruction);
            },
        };
        proof {
            lemma_decode_fields_bounded(w);
        }
        match i {
            Instr::Lui { rd, imm } => {
                self.lui(rd, imm);
                self.advance();
            },
            Instr::Auipc { rd, imm } => {
                self.auipc(rd, imm);
                self.advance();
            },
            Instr::Jal { rd, imm } => {
                self.jal(rd, imm);
            },
            Instr::Jalr { rd, rs1, imm } => {
                self.jalr(rd, rs1, imm);
            },
            Instr::Branch { op, rs1, rs2, imm } => {
                self.b_type(op, rs1, rs2, imm);
            },
            Instr::Load { op, rd, rs1, imm } => {
                match self.load(op, rd, rs1, imm) {
                    Ok(()) => {
                        self.advance();
                    },
                    Err(f) => {
                        return Err(f);
                    },
                }
            },
            Instr::Store { op, rs1, rs2, imm } => {
                match self.store(op, rs1, rs2, imm) {
                    Ok(()) => {
                        self.advance();
                    },
                    Err(f) => {
                        return Err(f);
                    },
                }
            },
            Instr::OpImm { op, rd, rs1, imm } => {
                self.op_imm(op, rd, rs1, imm);
                self.advance();
            },
            Instr::OpReg { op, rd, rs1, rs2 } => {
                self.op_reg(op, rd, rs1, rs2);
                self.advance();
            },
        }
        proof {
            assert(self@ =~= spec_exec_instr(old(self)@, i)->Ok_0);
        }
        Ok(())
    }
}

/// Law: register 0 is immutable. A step from a well-formed state leaves a
/// well-formed state, whose register 0 still reads zero; by induction any
/// sequence of instructions, whatever their rd, leaves register 0 at zero.
pub proof fn lemma_step_preserves_reg_zero(s: MachineState)
    requires
        state_wf(s),
    ensures
        spec_step(s) matches Ok(s1) ==> state_wf(s1) && spec_get_reg(s1.regs, 0) == 0,
{
    if spec_in_bounds(s.mem, s.pc, 4) {
        let w: u32 = spec_le32(s.mem, s.pc as int);
        lemma_decode_fields_bounded(w);
        match spec_decode(w) {
            Some(i) => match i {
                Instr::Lui { rd, imm } => {
                    lemma_set_reg_keeps_zero(s.regs, rd, imm);
                },
                Instr::Auipc { rd, imm } => {
                    lemma_set_reg_keeps_zero(s.regs, rd, wrap_add(imm, s.pc));
                },
                Instr::Jal { rd, .. } => {
                    lemma_set_reg_keeps_zero(s.regs, rd, wrap_add(s.pc, 4));
                },
                Instr::Jalr { rd, .. } => {
                    lemma_set_reg_keeps_zero(s.regs, rd, wrap_add(s.pc, 4));
                },
                Instr::Branch { .. } => {},
                Instr::Load { op, rd, rs1, imm } => {
                    let a: u32 = wrap_add(spec_get_reg(s.regs, rs1), imm);
                    lemma_set_reg_keeps_zero(s.regs, rd, spec_load_value(op, s.mem, a as int));
                },
                Instr::Store { .. } => {},
                Instr::OpImm { op, rd, rs1, imm } => {
                    lemma_set_reg_keeps_zero(
                        s.regs,
                        rd,
                        spec_alu(op, spec_get_reg(s.regs, rs1), imm),
                    );
                },
                Instr::OpReg { op, rd, rs1, rs2 } => {
                    lemma_set_reg_keeps_zero(
                        s.regs,
                        rd,
                        spec_alu(op, spec_get_reg(s.regs, rs1), spec_get_reg(s.regs, rs2)),
                    );
                },
            },
            None => {},
        }
    }
}

/// A register write never disturbs the slot backing register 0: a write to
/// register 0 is discarded, and a write anywhere else leaves slot 0 alone.
proof fn lemma_set_reg_keeps_zero(regs: Seq<u32>, rd: u32, v: u32)
    requires
        regs.len() == 32,
        regs[0] == 0,
        rd < 32,
    ensures
        spec_set_reg(regs, rd, v).len() == 32,
        spec_set_reg(regs, rd, v)[0] == 0,
{
}

/// Law: JAL, JALR, and taken branches redirect the program counter to the
/// control-flow target and do not additionally advance it by 4: the next
/// state's program counter equals the target exactly.
pub proof fn lemma_control_flow_redirects(s: MachineState)
    requires
        state_wf(s),
        spec_in_bounds(s.mem, s.pc, 4),
    ensures
        spec_decode(spec_le32(s.mem, s.pc as int)) matches Some(Instr::Jal { rd, imm })
            ==> spec_step(s) is Ok && spec_step(s)->Ok_0.pc == wrap_add(s.pc, imm),
        spec_decode(spec_le32(s.mem, s.pc as int)) matches Some(Instr::Jalr { rd, rs1, imm })
            ==> spec_step(s) is Ok && spec_step(s)->Ok_0.pc == (wrap_add(
            spec_get_reg(s.regs, rs1),
            imm,
        ) & 0xffff_fffe),
        spec_decode(spec_le32(s.mem, s.pc as int)) matches Some(Instr::Branch { op, rs1, rs2, imm })
            ==> (spec_branch_taken(op, spec_get_reg(s.regs, rs1), spec_get_reg(s.regs, rs2))
            ==> spec_step(s) is Ok && spec_step(s)->Ok_0.pc == wrap_add(s.pc, imm)),
{
}

/// Law: a non-control-flow instruction never touches the program counter
/// itself; the cycle advances it by exactly 4 after the instruction's
/// effect.
pub proof fn lemma_straight_line_advances_by_4(s: MachineState)
    requires
        state_wf(s),
        spec_in_bounds(s.mem, s.pc, 4),
    ensures
        spec_decode(spec_le32(s.mem, s.pc as int)) matches Some(i) ==> ((i matches Instr::Lui { .. }
            || i matches Instr::Auipc { .. } || i matches Instr::Load { .. } || i matches Instr::Store {
            ..
        } || i matches Instr::OpImm { .. } || i matches Instr::OpReg { .. }) ==> (spec_step(s)
            is Ok ==> spec_step(s)->Ok_0.pc == wrap_add(s.pc, 4))),
{
}

/// Law: a branch whose comparison does not hold falls through; the program
/// counter advances by exactly 4.
pub proof fn lemma_branch_not_taken_falls_through(s: MachineState)
    requires
        state_wf(s),
        spec_in_bounds(s.mem, s.pc, 4),
    ensures
        spec_decode(spec_le32(s.mem, s.pc as int)) matches Some(Instr::Branch { op, rs1, rs2, imm })
            ==> (!spec_branch_taken(op, spec_get_reg(s.regs, rs1), spec_get_reg(s.regs, rs2))
            ==> spec_step(s) is Ok && spec_step(s)->Ok_0.pc == wrap_add(s.pc, 4)),
{
}

} // verus!
