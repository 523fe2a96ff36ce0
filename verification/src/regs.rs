//! The register file: 32 general-purpose unsigned 32-bit registers.
//!
//! Register 0 is hard-wired to the constant zero: writes to it are
//! discarded and reads of it always yield zero. The program counter is not
//! part of the register file. Indices are always in 0..32; the decoder
//! guarantees this because rd, rs1, and rs2 are five-bit fields.

use vstd::pervasive::VecAdditionalExecFns;
use vstd::prelude::*;

verus! {

/// The value read from register `index`: zero unconditionally for register
/// 0, the stored value otherwise.
pub open spec fn spec_get_reg(regs: Seq<u32>, index: u32) -> u32
    recommends
        index < 32,
        regs.len() == 32,
{
    if index == 0 {
        0
    } else {
        regs[index as int]
    }
}

/// The register file after writing `value` to register `index`: unchanged
/// for register 0, updated at `index` otherwise.
pub open spec fn spec_set_reg(regs: Seq<u32>, index: u32, value: u32) -> Seq<u32>
    recommends
        index < 32,
        regs.len() == 32,
{
    if index == 0 {
        regs
    } else {
        regs.update(index as int, value)
    }
}

/// The register file. Its mathematical view is the sequence of the 32
/// stored values.
pub struct RegFile {
    x: Vec<u32>,
}

impl View for RegFile {
    type V = Seq<u32>;

    closed spec fn view(&self) -> Seq<u32> {
        self.x@
    }
}

impl RegFile {
    /// The register file always holds exactly 32 slots, and the slot backing
    /// register 0 stays zero because no write ever reaches it.
    pub open spec fn wf(&self) -> bool {
        self@.len() == 32 && self@[0] == 0
    }

    /// Creates a register file with all 32 registers zero.
    pub fn new() -> (r: RegFile)
        ensures
            r.wf(),
            forall|i: int| 0 <= i < 32 ==> r@[i] == 0u32,
    {
        let mut x: Vec<u32> = Vec::new();
        while x.len() < 32
            invariant
                x@.len() <= 32,
                forall|i: int| 0 <= i < x@.len() ==> x@[i] == 0u32,
            decreases 32 - x@.len(),
        {
            x.push(0);
        }
        RegFile { x }
    }

    /// Reads register `index`; register 0 reads as zero unconditionally.
    pub fn get(&self, index: u32) -> (r: u32)
        requires
            self.wf(),
            index < 32,
        ensures
            r == spec_get_reg(self@, index),
    {
        if index == 0 {
            0
        } else {
            self.x[index as usize]
        }
    }

    /// Writes `value` to register `index`; a write to register 0 is
    /// discarded.
    pub fn set(&mut self, index: u32, value: u32)
        requires
            old(self).wf(),
            index < 32,
        ensures
            final(self).wf(),
            final(self)@ == spec_set_reg(old(self)@, index, value),
    {
        if index != 0 {
            self.x.set(index as usize, value);
        }
    }
}

} // verus!
