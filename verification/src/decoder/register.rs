use vstd::prelude::*;

verus! {

/// Number of integer registers of an RV32I hart (`x0` to `x31`).
pub const NUM_REGS: usize = 32;

/// The integer register file of an RV32I hart together with its program counter.
///
/// `x[0]` is never read: register `x0` is hard-wired to zero, and a write to it,
/// or to an index that names no register, is discarded.
pub struct Register {
    pub x: [u32; 32],
    pub pc: u32,
}

impl Register {
    /// The value that reading register `idx` gives.
    pub open spec fn reg(&self, idx: u32) -> u32 {
        if 0 < idx < 32 {
            self.x@[idx as int]
        } else {
            0
        }
    }

    /// `post` is `self` after writing `val` to register `idx`: the register
    /// changes if it is one of `x1`..`x31`, and nothing else changes.
    pub open spec fn writes(&self, post: Register, idx: u32, val: u32) -> bool {
        &&& post.pc == self.pc
        &&& post.x@ == (if 0 < idx < 32 {
            self.x@.update(idx as int, val)
        } else {
            self.x@
        })
    }

    /// A register file whose registers and program counter are all zero.
    pub fn new() -> (r: Register)
        ensures
            forall|i: int| 0 <= i < 32 ==> r.x@[i] == 0,
            r.pc == 0,
    {
        Register { x: [0u32; 32], pc: 0 }
    }

    /// Reads register `idx`.
    #[allow(non_snake_case)]
    pub fn getReg(&self, idx: u32) -> (v: u32)
        ensures
            v == self.reg(idx),
    {
        if 0 < idx && idx < 32 {
            self.x[idx as usize]
        } else {
            0
        }
    }

    /// Writes `val` to register `idx`.
    #[allow(non_snake_case)]
    pub fn setReg(&mut self, idx: u32, val: u32)
        ensures
            old(self).writes(*final(self), idx, val),
    {
        if 0 < idx && idx < 32 {
            self.x[idx as usize] = val;
        }
    }

    /// Reads the program counter.
    #[allow(non_snake_case)]
    pub fn getPC(&self) -> (pc: u32)
        ensures
            pc == self.pc,
    {
        self.pc
    }
}


/// Register `x0` reads as zero, whatever the register file holds.
pub proof fn law_x0_reads_zero(r: Register)
    ensures
        r.reg(0) == 0,
{
}

/// A read gives back what the last write to that register wrote, if the register
/// is one of `x1`..`x31`; every other register reads as before the write.
pub proof fn law_read_after_write(r: Register, post: Register, idx: u32, val: u32, j: u32)
    requires
        r.writes(post, idx, val),
    ensures
        post.reg(j) == (if j == idx && 0 < idx < 32 {
            val
        } else {
            r.reg(j)
        }),
        post.pc == r.pc,
{
}

} // verus!
