//! Faults that abort the run loop. Load failures are reported separately by
//! the cartridge loader; everything here identifies the offending address or
//! opcode.

use vstd::prelude::*;

verus! {

#[derive(Debug, Clone, Copy, PartialEq, Eq, Structural)]
pub enum EmuError {
    /// A CPU read of a write-only PPU register.
    WriteOnlyRead(u16),
    /// A CPU write to the read-only PPU STATUS register.
    StatusWrite(u16),
    /// A CPU write into cartridge ROM.
    RomWrite(u16),
    /// An opcode byte with no entry in the opcode table.
    UnknownOpcode(u8),
    /// The run loop's step budget ran out before a BRK; the budget marks
    /// centuries of execution at any real speed and keeps the loop finite.
    StepLimitReached,
}

} // verus!
