//! The PPU MASK register (`$2001`): stored for the host; the core only
//! latches the byte.

use vstd::prelude::*;

verus! {

pub struct MaskRegister {
    pub bits: u8,
}

impl MaskRegister {
    pub fn new() -> (r: MaskRegister)
        ensures
            r.bits == 0,
    {
        MaskRegister { bits: 0 }
    }

    pub fn update(&mut self, data: u8)
        ensures
            final(self).bits == data,
    {
        self.bits = data;
    }
}

} // verus!
