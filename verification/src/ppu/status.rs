//! The PPU STATUS register (`$2002`): vertical-blank and sprite-zero-hit
//! bits, snapshotted by CPU reads.

use vstd::prelude::*;

verus! {

pub struct StatusRegister {
    pub bits: u8,
}

impl StatusRegister {
    /// Bit 7: the vertical-blank flag.
    pub open spec fn spec_vblank(self) -> bool {
        self.bits & 0b1000_0000 != 0
    }

    pub fn new() -> (r: StatusRegister)
        ensures
            r.bits == 0,
    {
        StatusRegister { bits: 0 }
    }

    pub fn snapshot(&self) -> (r: u8)
        ensures
            r == self.bits,
    {
        self.bits
    }

    pub fn set_vblank_status(&mut self, status: bool)
        ensures
            final(self).bits == if status {
                old(self).bits | 0b1000_0000
            } else {
                old(self).bits & 0b0111_1111
            },
    {
        if status {
            self.bits = self.bits | 0b1000_0000;
        } else {
            self.bits = self.bits & 0b0111_1111;
        }
    }

    pub fn reset_vblank_status(&mut self)
        ensures
            final(self).bits == old(self).bits & 0b0111_1111,
    {
        self.bits = self.bits & 0b0111_1111;
    }

    pub fn set_sprite_zero_hit(&mut self, status: bool)
        ensures
            final(self).bits == if status {
                old(self).bits | 0b0100_0000
            } else {
                old(self).bits & 0b1011_1111
            },
    {
        if status {
            self.bits = self.bits | 0b0100_0000;
        } else {
            self.bits = self.bits & 0b1011_1111;
        }
    }
}

} // verus!
