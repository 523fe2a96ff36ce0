//! A flat, fixed-capacity, zero-initialized byte store backing instruction
//! fetch and data load/store.
//!
//! Addresses are unsigned 32-bit offsets. Every access of width 1, 2, or 4
//! must lie fully within bounds; an access past the end is an
//! [`Fault::OutOfBounds`] fault, never a panic. No alignment requirement is
//! imposed: unaligned access is deliberately permitted, matching the base
//! ISA's default behavior. Multi-byte values are stored little-endian.

use crate::Fault;
use vstd::pervasive::VecAdditionalExecFns;
use vstd::prelude::*;

verus! {

/// The two bytes at `a` and `a + 1` read as an unsigned little-endian value.
pub open spec fn spec_le16(mem: Seq<u8>, a: int) -> u32 {
    (mem[a] + mem[a + 1] * 0x100) as u32
}

/// The four bytes starting at `a` read as an unsigned little-endian value.
pub open spec fn spec_le32(mem: Seq<u8>, a: int) -> u32 {
    (mem[a] + mem[a + 1] * 0x100 + mem[a + 2] * 0x1_0000 + mem[a + 3] * 0x100_0000) as u32
}

/// Whether an access of `width` bytes starting at `addr` lies fully inside
/// the image.
pub open spec fn spec_in_bounds(mem: Seq<u8>, addr: u32, width: u32) -> bool {
    addr + width <= mem.len()
}

/// The `width` bytes starting at `addr` read as an unsigned little-endian
/// integer.
pub open spec fn spec_read(mem: Seq<u8>, addr: u32, width: u32) -> u32
    recommends
        width == 1 || width == 2 || width == 4,
        spec_in_bounds(mem, addr, width),
{
    if width == 1 {
        mem[addr as int] as u32
    } else if width == 2 {
        spec_le16(mem, addr as int)
    } else {
        spec_le32(mem, addr as int)
    }
}

/// The image after storing the low `width` bytes of `value` little-endian
/// at `addr`.
pub open spec fn spec_write(mem: Seq<u8>, addr: u32, width: u32, value: u32) -> Seq<u8>
    recommends
        width == 1 || width == 2 || width == 4,
        spec_in_bounds(mem, addr, width),
{
    let a: int = addr as int;
    if width == 1 {
        mem.update(a, (value % 0x100) as u8)
    } else if width == 2 {
        mem.update(a, (value % 0x100) as u8).update(a + 1, ((value / 0x100) % 0x100) as u8)
    } else {
        mem.update(a, (value % 0x100) as u8).update(a + 1, ((value / 0x100) % 0x100) as u8).update(
            a + 2,
            ((value / 0x1_0000) % 0x100) as u8,
        ).update(a + 3, ((value / 0x100_0000) % 0x100) as u8)
    }
}

/// The image after copying `bytes` into it starting at `dest_addr`.
pub open spec fn spec_load_bytes(mem: Seq<u8>, dest_addr: u32, bytes: Seq<u8>) -> Seq<u8>
    recommends
        dest_addr + bytes.len() <= mem.len(),
{
    Seq::new(
        mem.len(),
        |i: int|
            if dest_addr <= i < dest_addr + bytes.len() {
                bytes[i - dest_addr]
            } else {
                mem[i]
            },
    )
}

/// Law: reading a location just written with the same width yields the
/// value that was stored, truncated to that width; for a four-byte access
/// it is exactly the stored value. Little-endian decomposition and
/// recomposition are inverse to each other.
pub proof fn lemma_write_then_read(mem: Seq<u8>, addr: u32, width: u32, value: u32)
    requires
        width == 1 || width == 2 || width == 4,
        spec_in_bounds(mem, addr, width),
    ensures
        width == 1 ==> spec_read(spec_write(mem, addr, width, value), addr, width) == value % 0x100,
        width == 2 ==> spec_read(spec_write(mem, addr, width, value), addr, width) == value
            % 0x1_0000,
        width == 4 ==> spec_read(spec_write(mem, addr, width, value), addr, width) == value,
{
    if width == 2 {
        assert(value % 0x100 + ((value / 0x100) % 0x100) * 0x100 == value % 0x1_0000)
            by (bit_vector);
    }
    if width == 4 {
        assert(value % 0x100 + ((value / 0x100) % 0x100) * 0x100 + ((value / 0x1_0000) % 0x100)
            * 0x1_0000 + ((value / 0x100_0000) % 0x100) * 0x100_0000 == value) by (bit_vector);
    }
}

/// The addressable byte store. Its mathematical view is the sequence of all
/// bytes of the image; the capacity is the view's length and never changes.
pub struct Memory {
    bytes: Vec<u8>,
}

impl View for Memory {
    type V = Seq<u8>;

    closed spec fn view(&self) -> Seq<u8> {
        self.bytes@
    }
}

impl Memory {
    /// Allocates a zero-initialized image of `capacity` bytes.
    pub fn new(capacity: usize) -> (r: Memory)
        ensures
            r@.len() == capacity,
            forall|i: int| 0 <= i < capacity ==> r@[i] == 0u8,
    {
        let mut bytes: Vec<u8> = Vec::new();
        while bytes.len() < capacity
            invariant
                bytes@.len() <= capacity,
                forall|i: int| 0 <= i < bytes@.len() ==> bytes@[i] == 0u8,
            decreases capacity - bytes@.len(),
        {
            bytes.push(0);
        }
        Memory { bytes }
    }

    /// Reads `width` bytes (1, 2, or 4) starting at `addr` as an unsigned
    /// little-endian integer, or faults when the access would run past the
    /// end of the image.
    pub fn read(&self, addr: u32, width: u32) -> (r: Result<u32, Fault>)
        requires
            width == 1 || width == 2 || width == 4,
        ensures
            spec_in_bounds(self@, addr, width) ==> r == Ok::<u32, Fault>(
                spec_read(self@, addr, width),
            ),
            !spec_in_bounds(self@, addr, width) ==> r == Err::<u32, Fault>(Fault::OutOfBounds),
    {
        if addr as u64 + width as u64 > self.bytes.len() as u64 {
            return Err(Fault::OutOfBounds);
        }
        let a: usize = addr as usize;
        if width == 1 {
            Ok(self.bytes[a] as u32)
        } else if width == 2 {
            Ok(self.bytes[a] as u32 + self.bytes[a + 1] as u32 * 0x100)
        } else {
            Ok(
                self.bytes[a] as u32 + self.bytes[a + 1] as u32 * 0x100 + self.bytes[a + 2] as u32
                    * 0x1_0000 + self.bytes[a + 3] as u32 * 0x100_0000,
            )
        }
    }

    /// Stores the low `width` bytes (1, 2, or 4) of `value` little-endian at
    /// `addr`, or faults, leaving the image untouched, when the access would
    /// run past the end of the image.
    pub fn write(&mut self, addr: u32, width: u32, value: u32) -> (r: Result<(), Fault>)
        requires
            width == 1 || width == 2 || width == 4,
        ensures
            spec_in_bounds(old(self)@, addr, width) ==> r == Ok::<(), Fault>(()) && final(self)@
                == spec_write(old(self)@, addr, width, value),
            !spec_in_bounds(old(self)@, addr, width) ==> r == Err::<(), Fault>(Fault::OutOfBounds)
                && final(self)@ == old(self)@,
    {
        if addr as u64 + width as u64 > self.bytes.len() as u64 {
            return Err(Fault::OutOfBounds);
        }
        let a: usize = addr as usize;
        self.bytes.set(a, (value % 0x100) as u8);
        if width >= 2 {
            self.bytes.set(a + 1, ((value / 0x100) % 0x100) as u8);
        }
        if width == 4 {
            self.bytes.set(a + 2, ((value / 0x1_0000) % 0x100) as u8);
            self.bytes.set(a + 3, ((value / 0x100_0000) % 0x100) as u8);
        }
        Ok(())
    }

    /// Copies `bytes` into the image starting at `dest_addr`, or faults,
    /// leaving the image untouched, when the copy would overflow it.
    pub fn load_bytes(&mut self, dest_addr: u32, bytes: &Vec<u8>) -> (r: Result<(), Fault>)
        ensures
            dest_addr + bytes@.len() <= old(self)@.len() ==> r == Ok::<(), Fault>(())
                && final(self)@ == spec_load_bytes(old(self)@, dest_addr, bytes@),
            dest_addr + bytes@.len() > old(self)@.len() ==> r == Err::<(), Fault>(
                Fault::OutOfBounds,
            ) && final(self)@ == old(self)@,
    {
        let n: usize = bytes.len();
        let cap: usize = self.bytes.len();
        if n > cap || dest_addr as u64 > (cap - n) as u64 {
            return Err(Fault::OutOfBounds);
        }
        let base: usize = dest_addr as usize;
        let mut i: usize = 0;
        while i < n
            invariant
                i <= n,
                base == dest_addr,
                base + n <= self.bytes@.len(),
                n == bytes@.len(),
                self.bytes@.len() == old(self)@.len(),
                self.bytes@.len() <= usize::MAX,
                forall|j: int| 0 <= j < i ==> self.bytes@[base + j] == bytes@[j],
                forall|j: int|
                    0 <= j < self.bytes@.len() && !(base <= j < base + i) ==> self.bytes@[j] == old(
                        self,
                    )@[j],
            decreases n - i,
        {
            self.bytes.set(base + i, bytes[i]);
            i += 1;
        }
        proof {
            assert(self.bytes@ =~= spec_load_bytes(old(self)@, dest_addr, bytes@));
        }
        Ok(())
    }
}

} // verus!
