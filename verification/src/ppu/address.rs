//! The PPU ADDR register: a 14-bit pointer written through `$2006` one byte
//! at a time, high byte first, behind a toggling latch.

use crate::bitmath::lemma_u16_mask_facts;
use vstd::prelude::*;

verus! {

pub struct AddrRegister {
    pub value: (u8, u8),
    pub hi_ptr: bool,
}

impl AddrRegister {
    /// The full pointer: high byte times 256 plus low byte.
    pub open spec fn spec_get(self) -> int {
        self.value.0 * 256 + self.value.1
    }

    /// The pointer always sits inside the 14-bit PPU address space.
    pub open spec fn wf(self) -> bool {
        self.spec_get() <= 0x3fff
    }

    pub fn new() -> (r: AddrRegister)
        ensures
            r.spec_get() == 0,
            r.hi_ptr,
            r.wf(),
    {
        AddrRegister { value: (0, 0), hi_ptr: true }
    }

    fn set(&mut self, data: u16)
        ensures
            final(self).spec_get() == data,
            final(self).hi_ptr == old(self).hi_ptr,
    {
        self.value.0 = (data / 256) as u8;
        self.value.1 = (data % 256) as u8;
    }

    /// One CPU write: fills the byte the latch points at, masks the pointer
    /// down to 14 bits, and flips the latch.
    pub fn update(&mut self, data: u8)
        requires
            old(self).wf(),
        ensures
            final(self).spec_get() == if old(self).hi_ptr {
                (data * 256 + old(self).value.1) % 0x4000
            } else {
                (old(self).value.0 * 256 + data) % 0x4000
            },
            final(self).hi_ptr == !old(self).hi_ptr,
            final(self).wf(),
    {
        if self.hi_ptr {
            self.value.0 = data;
        } else {
            self.value.1 = data;
        }

        let current = self.get();
        if current > 0x3fff {
            proof {
                lemma_u16_mask_facts(current);
            }
            self.set(current & 0x3fff);
        }

        self.hi_ptr = !self.hi_ptr;
    }

    /// Post-access increment by 1 or 32, wrapping within 14 bits.
    pub fn increment(&mut self, inc: u8)
        requires
            old(self).wf(),
        ensures
            final(self).spec_get() == (old(self).spec_get() + inc) % 0x4000,
            final(self).hi_ptr == old(self).hi_ptr,
            final(self).wf(),
    {
        let lo = self.value.1;
        self.value.1 = self.value.1.wrapping_add(inc);

        if lo > self.value.1 {
            self.value.0 = self.value.0.wrapping_add(1);
        }

        let current = self.get();
        if current > 0x3fff {
            proof {
                lemma_u16_mask_facts(current);
            }
            self.set(current & 0x3fff);
        }
    }

    /// Reading STATUS rewinds the latch so the next write is the high byte.
    pub fn reset_latch(&mut self)
        ensures
            final(self).hi_ptr,
            final(self).value == old(self).value,
            final(self).spec_get() == old(self).spec_get(),
    {
        self.hi_ptr = true;
    }

    pub fn get(&self) -> (r: u16)
        ensures
            r == self.spec_get(),
    {
        (self.value.0 as u16) * 256 + (self.value.1 as u16)
    }
}

} // verus!
