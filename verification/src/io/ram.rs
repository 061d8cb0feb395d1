//! RAM emulation

use vstd::prelude::*;

verus! {

/// RAM image
pub struct Ram {
    data: Vec<u8>,
}

impl Ram {
    /// Contents of the RAM
    pub closed spec fn view(&self) -> Seq<u8> {
        self.data@
    }

    /// Create a new RAM. The default RAM values are undetermined so
    /// it is filled with garbage
    pub fn new(size: usize) -> (r: Ram)
        ensures
            r@ == Seq::new(size as nat, |i: int| 0xcau8),
    {
        let mut data: Vec<u8> = Vec::new();
        while data.len() < size
            invariant
                data.len() <= size,
                forall|i: int| 0 <= i < data.len() ==> #[trigger] data@[i] == 0xca,
            decreases size - data.len(),
        {
            data.push(0xca);
        }
        assert(data@ =~= Seq::new(size as nat, |i: int| 0xcau8));
        Ram { data: data }
    }

    pub fn byte(&self, offset: u16) -> (r: u8)
        requires
            (offset as int) < self@.len(),
        ensures
            r == self@[offset as int],
    {
        self.data[offset as usize]
    }

    pub fn set_byte(&mut self, offset: u16, val: u8)
        requires
            (offset as int) < old(self)@.len(),
        ensures
            final(self)@ == old(self)@.update(offset as int, val),
    {
        self.data.set(offset as usize, val);
    }
}

} // verus!
