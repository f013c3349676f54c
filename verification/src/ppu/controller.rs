//! The PPU CTRL register (`$2000`): a plain byte of control bits, read here
//! by the fields the core consults.

use vstd::prelude::*;

verus! {

pub struct ControlRegister {
    pub bits: u8,
}

impl ControlRegister {
    /// Bit 2 selects the VRAM address step: 32 when set, 1 when clear.
    pub open spec fn spec_vram_addr_increment(self) -> u8 {
        if self.bits & 0b0000_0100 != 0 {
            32
        } else {
            1
        }
    }

    /// Bit 7 enables the NMI raised at the start of vertical blank.
    pub open spec fn spec_generate_vblank_nmi(self) -> bool {
        self.bits & 0b1000_0000 != 0
    }

    /// Bit 4 selects the CHR bank the background tiles come from.
    pub open spec fn spec_bknd_pattern_addr(self) -> u16 {
        if self.bits & 0b0001_0000 != 0 {
            0x1000
        } else {
            0
        }
    }

    /// Bit 3 selects the CHR bank the sprite tiles come from.
    pub open spec fn spec_sprt_pattern_addr(self) -> u16 {
        if self.bits & 0b0000_1000 != 0 {
            0x1000
        } else {
            0
        }
    }

    /// Bits 0-1 select the base name table.
    pub open spec fn spec_nametable_addr(self) -> u16 {
        if self.bits & 0b11 == 0 {
            0x2000
        } else if self.bits & 0b11 == 1 {
            0x2400
        } else if self.bits & 0b11 == 2 {
            0x2800
        } else {
            0x2c00
        }
    }

    pub fn new() -> (r: ControlRegister)
        ensures
            r.bits == 0,
    {
        ControlRegister { bits: 0 }
    }

    pub fn update(&mut self, data: u8)
        ensures
            final(self).bits == data,
    {
        self.bits = data;
    }

    pub fn vram_addr_increment(&self) -> (r: u8)
        ensures
            r == self.spec_vram_addr_increment(),
    {
        if self.bits & 0b0000_0100 != 0 {
            32
        } else {
            1
        }
    }

    pub fn generate_vblank_nmi(&self) -> (r: bool)
        ensures
            r == self.spec_generate_vblank_nmi(),
    {
        self.bits & 0b1000_0000 != 0
    }

    pub fn bknd_pattern_addr(&self) -> (r: u16)
        ensures
            r == self.spec_bknd_pattern_addr(),
    {
        if self.bits & 0b0001_0000 != 0 {
            0x1000
        } else {
            0
        }
    }

    pub fn sprt_pattern_addr(&self) -> (r: u16)
        ensures
            r == self.spec_sprt_pattern_addr(),
    {
        if self.bits & 0b0000_1000 != 0 {
            0x1000
        } else {
            0
        }
    }

    pub fn nametable_addr(&self) -> (r: u16)
        ensures
            r == self.spec_nametable_addr(),
    {
        let low = self.bits & 0b11;
        if low == 0 {
            0x2000
        } else if low == 1 {
            0x2400
        } else if low == 2 {
            0x2800
        } else {
            0x2c00
        }
    }
}

} // verus!
