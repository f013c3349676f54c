//! A cycle-approximate emulator core for the Nintendo Entertainment System:
//! a 6502 CPU interpreter, the 2C02 picture processing unit, the memory bus
//! that couples them, the cartridge loader and the controllers, with the
//! behaviour of each component stated in contracts and proved.

pub mod bitmath;
pub mod bus;
pub mod cartridge;
pub mod cpu;
pub mod errors;
pub mod joypads;
pub mod opcodes;
pub mod ppu;
pub mod render;
