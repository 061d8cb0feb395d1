//! Memory mapped IO registers without a dedicated peripheral

use vstd::prelude::*;

verus! {

/// Number of memory mapped IO registers
pub const REGS_SIZE: usize = 0x100;

/// Register state
pub struct Regs {
    regs: Vec<u8>,
}

impl Regs {
    /// Register values
    pub closed spec fn view(&self) -> Seq<u8> {
        self.regs@
    }

    /// Create a new register instance. Set everything to 0.
    pub fn new() -> (r: Regs)
        ensures
            r@ == Seq::new(REGS_SIZE as nat, |i: int| 0u8),
    {
        let mut regs: Vec<u8> = Vec::new();
        while regs.len() < REGS_SIZE
            invariant
                regs.len() <= REGS_SIZE,
                forall|i: int| 0 <= i < regs.len() ==> #[trigger] regs@[i] == 0,
            decreases REGS_SIZE - regs.len(),
        {
            regs.push(0);
        }
        assert(regs@ =~= Seq::new(REGS_SIZE as nat, |i: int| 0u8));
        Regs { regs: regs }
    }

    /// Reset all registers to 0
    pub fn reset(&mut self)
        requires
            old(self)@.len() == REGS_SIZE,
        ensures
            final(self)@ == Seq::new(REGS_SIZE as nat, |i: int| 0u8),
    {
        let mut i: usize = 0;
        while i < self.regs.len()
            invariant
                self.regs@.len() == REGS_SIZE,
                i <= REGS_SIZE,
                forall|j: int| 0 <= j < i ==> #[trigger] self.regs@[j] == 0,
            decreases REGS_SIZE - i,
        {
            self.regs.set(i, 0);
            i = i + 1;
        }
        assert(self.regs@ =~= Seq::new(REGS_SIZE as nat, |i: int| 0u8));
    }

    /// Value of register `offset`
    pub fn get_byte(&self, offset: u8) -> (r: u8)
        requires
            self@.len() == REGS_SIZE,
        ensures
            r == self@[offset as int],
    {
        self.regs[offset as usize]
    }

    /// Store `val` in register `offset`
    pub fn set_byte(&mut self, offset: u8, val: u8)
        requires
            old(self)@.len() == REGS_SIZE,
        ensures
            final(self)@ == old(self)@.update(offset as int, val),
    {
        self.regs.set(offset as usize, val);
    }
}

} // verus!
