//! The opcode table: for every opcode byte the interpreter accepts, its
//! mnemonic, instruction length in bytes, base cycle count, and addressing
//! mode. The table is data; the run loop dispatches on the opcode byte.

use crate::cpu::AddressingMode;
use vstd::prelude::*;

verus! {

pub struct OpCode {
    pub code: u8,
    pub mnemonic: &'static str,
    pub len: u8,
    pub cycles: u8,
    pub mode: AddressingMode,
}

impl OpCode {
    pub fn new(code: u8, mnemonic: &'static str, len: u8, cycles: u8, mode: AddressingMode) -> (r:
        OpCode)
        ensures
            r.code == code,
            r.mnemonic == mnemonic,
            r.len == len,
            r.cycles == cycles,
            r.mode == mode,
    {
        OpCode { code, mnemonic, len, cycles, mode }
    }
}

/// Length, base cycles and addressing mode of each known opcode; `None` for
/// the few encodings the interpreter rejects as unknown.
pub open spec fn spec_opcode_entry(code: u8) -> Option<(u8, u8, AddressingMode)> {
    match code {
        0x00 => Some((1, 7, AddressingMode::NoneAddressing)),
        // implied one-byte instructions, single-byte NOPs and halts
        0xea | 0x1a | 0x3a | 0x5a | 0x7a | 0xda | 0xfa | 0x02 | 0x12 | 0x22 | 0x32 | 0x42 | 0x52
            | 0x62 | 0x72 | 0x92 | 0xb2 | 0xd2 | 0xf2 | 0xaa | 0xa8 | 0x8a | 0x98 | 0xba | 0x9a
            | 0xe8 | 0xc8 | 0xca | 0x88 | 0x38 | 0x18 | 0x78 | 0x58 | 0xf8 | 0xd8 | 0xb8 | 0x0a
            | 0x4a | 0x2a | 0x6a => Some((1, 2, AddressingMode::NoneAddressing)),
        0x48 | 0x08 => Some((1, 3, AddressingMode::NoneAddressing)),
        0x68 | 0x28 => Some((1, 4, AddressingMode::NoneAddressing)),
        0x60 | 0x40 => Some((1, 6, AddressingMode::NoneAddressing)),
        0x6c => Some((3, 5, AddressingMode::NoneAddressing)),
        // relative branches
        0xd0 | 0xf0 | 0x90 | 0xb0 | 0x30 | 0x10 | 0x50 | 0x70 => Some(
            (2, 2, AddressingMode::NoneAddressing),
        ),
        0xa9 | 0xa2 | 0xa0 | 0x69 | 0xe9 | 0xeb | 0x29 | 0x49 | 0x09 | 0xc9 | 0xe0 | 0xc0 | 0xcb
            | 0x6b | 0x0b | 0x2b | 0x4b | 0x80 | 0x82 | 0x89 | 0xc2 | 0xe2 => Some(
            (2, 2, AddressingMode::Immediate),
        ),
        0xa5 | 0xa6 | 0xa4 | 0x85 | 0x86 | 0x84 | 0x65 | 0xe5 | 0x25 | 0x45 | 0x05 | 0xc5 | 0xe4
            | 0xc4 | 0x24 | 0x04 | 0x44 | 0x64 | 0xa7 | 0x87 => Some(
            (2, 3, AddressingMode::ZeroPage),
        ),
        0xb5 | 0xb4 | 0x95 | 0x94 | 0x75 | 0xf5 | 0x35 | 0x55 | 0x15 | 0xd5 | 0x14 | 0x34 | 0x54
            | 0x74 | 0xd4 | 0xf4 => Some((2, 4, AddressingMode::ZeroPage_X)),
        0xb6 | 0x96 | 0xb7 | 0x97 => Some((2, 4, AddressingMode::ZeroPage_Y)),
        0x06 | 0x46 | 0x26 | 0x66 | 0xe6 | 0xc6 | 0xc7 | 0x27 | 0x07 | 0x47 | 0x67 | 0xe7 => Some(
            (2, 5, AddressingMode::ZeroPage),
        ),
        0x16 | 0x56 | 0x36 | 0x76 | 0xf6 | 0xd6 | 0xd7 | 0x37 | 0x17 | 0x57 | 0x77 | 0xf7 => Some(
            (2, 6, AddressingMode::ZeroPage_X),
        ),
        0xad | 0xae | 0xac | 0x8d | 0x8e | 0x8c | 0x6d | 0xed | 0x2d | 0x4d | 0x0d | 0xcd | 0xec
            | 0xcc | 0x2c | 0x0c | 0xaf | 0x8f => Some((3, 4, AddressingMode::Absolute)),
        0x4c => Some((3, 3, AddressingMode::Absolute)),
        0x20 | 0x0e | 0x4e | 0x2e | 0x6e | 0xee | 0xce | 0xcf | 0x2f | 0x0f | 0x4f | 0x6f | 0xef
            => Some((3, 6, AddressingMode::Absolute)),
        0xbd | 0xbc | 0x7d | 0xfd | 0x3d | 0x5d | 0x1d | 0xdd | 0x1c | 0x3c | 0x5c | 0x7c | 0xdc
            | 0xfc => Some((3, 4, AddressingMode::Absolute_X)),
        0x9d => Some((3, 5, AddressingMode::Absolute_X)),
        0x1e | 0x5e | 0x3e | 0x7e | 0xfe | 0xde | 0xdf | 0x3f | 0x1f | 0x5f | 0x7f | 0xff => Some(
            (3, 7, AddressingMode::Absolute_X),
        ),
        0xb9 | 0xbe | 0x79 | 0xf9 | 0x39 | 0x59 | 0x19 | 0xd9 | 0xbf => Some(
            (3, 4, AddressingMode::Absolute_Y),
        ),
        0x99 => Some((3, 5, AddressingMode::Absolute_Y)),
        0xdb | 0x3b | 0x1b | 0x5b | 0x7b | 0xfb => Some((3, 7, AddressingMode::Absolute_Y)),
        0xa1 | 0x81 | 0x61 | 0xe1 | 0x21 | 0x41 | 0x01 | 0xc1 | 0xa3 | 0x83 => Some(
            (2, 6, AddressingMode::Indirect_X),
        ),
        0xc3 | 0x23 | 0x03 | 0x43 | 0x63 | 0xe3 => Some((2, 8, AddressingMode::Indirect_X)),
        0xb1 | 0x71 | 0xf1 | 0x31 | 0x51 | 0x11 | 0xd1 | 0xb3 => Some(
            (2, 5, AddressingMode::Indirect_Y),
        ),
        0x91 => Some((2, 6, AddressingMode::Indirect_Y)),
        0xd3 | 0x33 | 0x13 | 0x53 | 0x73 | 0xf3 => Some((2, 8, AddressingMode::Indirect_Y)),
        _ => None,
    }
}

pub open spec fn spec_opcode_known(code: u8) -> bool {
    spec_opcode_entry(code) is Some
}

pub open spec fn spec_opcode_len(code: u8) -> u8 {
    spec_opcode_entry(code)->Some_0.0
}

pub open spec fn spec_opcode_cycles(code: u8) -> u8 {
    spec_opcode_entry(code)->Some_0.1
}

pub open spec fn spec_opcode_mode(code: u8) -> AddressingMode {
    spec_opcode_entry(code)->Some_0.2
}

/// The instruction name, for tracing and diagnostics; unofficial opcodes get
/// the name of the primitive they reduce to.
pub fn opcode_mnemonic(code: u8) -> &'static str {
    match code {
        0x00 => "BRK",
        0xea | 0x1a | 0x3a | 0x5a | 0x7a | 0xda | 0xfa | 0x02 | 0x12 | 0x22 | 0x32 | 0x42 | 0x52
            | 0x62 | 0x72 | 0x92 | 0xb2 | 0xd2 | 0xf2 | 0x04 | 0x44 | 0x64 | 0x14 | 0x34 | 0x54
            | 0x74 | 0xd4 | 0xf4 | 0x0c | 0x1c | 0x3c | 0x5c | 0x7c | 0xdc | 0xfc | 0x80 | 0x82
            | 0x89 | 0xc2 | 0xe2 => "NOP",
        0xa9 | 0xa5 | 0xb5 | 0xad | 0xbd | 0xb9 | 0xa1 | 0xb1 => "LDA",
        0xa2 | 0xa6 | 0xb6 | 0xae | 0xbe => "LDX",
        0xa0 | 0xa4 | 0xb4 | 0xac | 0xbc => "LDY",
        0x85 | 0x95 | 0x8d | 0x9d | 0x99 | 0x81 | 0x91 => "STA",
        0x86 | 0x96 | 0x8e => "STX",
        0x84 | 0x94 | 0x8c => "STY",
        0x69 | 0x65 | 0x75 | 0x6d | 0x7d | 0x79 | 0x61 | 0x71 => "ADC",
        0xe9 | 0xe5 | 0xf5 | 0xed | 0xfd | 0xf9 | 0xe1 | 0xf1 | 0xeb => "SBC",
        0x29 | 0x25 | 0x35 | 0x2d | 0x3d | 0x39 | 0x21 | 0x31 => "AND",
        0x49 | 0x45 | 0x55 | 0x4d | 0x5d | 0x59 | 0x41 | 0x51 => "EOR",
        0x09 | 0x05 | 0x15 | 0x0d | 0x1d | 0x19 | 0x01 | 0x11 => "ORA",
        0x0a | 0x06 | 0x16 | 0x0e | 0x1e => "ASL",
        0x4a | 0x46 | 0x56 | 0x4e | 0x5e => "LSR",
        0x2a | 0x26 | 0x36 | 0x2e | 0x3e => "ROL",
        0x6a | 0x66 | 0x76 | 0x6e | 0x7e => "ROR",
        0xe6 | 0xf6 | 0xee | 0xfe => "INC",
        0xe8 => "INX",
        0xc8 => "INY",
        0xc6 | 0xd6 | 0xce | 0xde => "DEC",
        0xca => "DEX",
        0x88 => "DEY",
        0xc9 | 0xc5 | 0xd5 | 0xcd | 0xdd | 0xd9 | 0xc1 | 0xd1 => "CMP",
        0xe0 | 0xe4 | 0xec => "CPX",
        0xc0 | 0xc4 | 0xcc => "CPY",
        0x4c | 0x6c => "JMP",
        0x20 => "JSR",
        0x60 => "RTS",
        0x40 => "RTI",
        0xd0 => "BNE",
        0xf0 => "BEQ",
        0x90 => "BCC",
        0xb0 => "BCS",
        0x30 => "BMI",
        0x10 => "BPL",
        0x50 => "BVC",
        0x70 => "BVS",
        0x24 | 0x2c => "BIT",
        0x38 => "SEC",
        0x18 => "CLC",
        0x78 => "SEI",
        0x58 => "CLI",
        0xf8 => "SED",
        0xd8 => "CLD",
        0xb8 => "CLV",
        0xaa => "TAX",
        0xa8 => "TAY",
        0x8a => "TXA",
        0x98 => "TYA",
        0xba => "TSX",
        0x9a => "TXS",
        0x48 => "PHA",
        0x08 => "PHP",
        0x68 => "PLA",
        0x28 => "PLP",
        0xc7 | 0xd7 | 0xcf | 0xdf | 0xdb | 0xd3 | 0xc3 => "DCP",
        0x27 | 0x37 | 0x2f | 0x3f | 0x3b | 0x33 | 0x23 => "RLA",
        0x07 | 0x17 | 0x0f | 0x1f | 0x1b | 0x03 | 0x13 => "SLO",
        0x47 | 0x57 | 0x4f | 0x5f | 0x5b | 0x43 | 0x53 => "SRE",
        0x67 | 0x77 | 0x6f | 0x7f | 0x7b | 0x63 | 0x73 => "RRA",
        0xe7 | 0xf7 | 0xef | 0xff | 0xfb | 0xe3 | 0xf3 => "ISB",
        0xa7 | 0xb7 | 0xaf | 0xbf | 0xa3 | 0xb3 => "LAX",
        0x87 | 0x97 | 0x8f | 0x83 => "SAX",
        0xcb => "AXS",
        0x6b => "ARR",
        0x0b | 0x2b => "ANC",
        0x4b => "ALR",
        _ => "???",
    }
}

/// Table lookup for one opcode byte.
pub fn opcode_lookup(code: u8) -> (r: Option<OpCode>)
    ensures
        r is Some <==> spec_opcode_known(code),
        r matches Some(op) ==> {
            &&& op.code == code
            &&& op.len == spec_opcode_len(code)
            &&& op.cycles == spec_opcode_cycles(code)
            &&& op.mode == spec_opcode_mode(code)
        },
{
    let entry: Option<(u8, u8, AddressingMode)> = match code {
        0x00 => Some((1, 7, AddressingMode::NoneAddressing)),
        0xea | 0x1a | 0x3a | 0x5a | 0x7a | 0xda | 0xfa | 0x02 | 0x12 | 0x22 | 0x32 | 0x42 | 0x52
            | 0x62 | 0x72 | 0x92 | 0xb2 | 0xd2 | 0xf2 | 0xaa | 0xa8 | 0x8a | 0x98 | 0xba | 0x9a
            | 0xe8 | 0xc8 | 0xca | 0x88 | 0x38 | 0x18 | 0x78 | 0x58 | 0xf8 | 0xd8 | 0xb8 | 0x0a
            | 0x4a | 0x2a | 0x6a => Some((1, 2, AddressingMode::NoneAddressing)),
        0x48 | 0x08 => Some((1, 3, AddressingMode::NoneAddressing)),
        0x68 | 0x28 => Some((1, 4, AddressingMode::NoneAddressing)),
        0x60 | 0x40 => Some((1, 6, AddressingMode::NoneAddressing)),
        0x6c => Some((3, 5, AddressingMode::NoneAddressing)),
        0xd0 | 0xf0 | 0x90 | 0xb0 | 0x30 | 0x10 | 0x50 | 0x70 => Some(
            (2, 2, AddressingMode::NoneAddressing),
        ),
        0xa9 | 0xa2 | 0xa0 | 0x69 | 0xe9 | 0xeb | 0x29 | 0x49 | 0x09 | 0xc9 | 0xe0 | 0xc0 | 0xcb
            | 0x6b | 0x0b | 0x2b | 0x4b | 0x80 | 0x82 | 0x89 | 0xc2 | 0xe2 => Some(
            (2, 2, AddressingMode::Immediate),
        ),
        0xa5 | 0xa6 | 0xa4 | 0x85 | 0x86 | 0x84 | 0x65 | 0xe5 | 0x25 | 0x45 | 0x05 | 0xc5 | 0xe4
            | 0xc4 | 0x24 | 0x04 | 0x44 | 0x64 | 0xa7 | 0x87 => Some(
            (2, 3, AddressingMode::ZeroPage),
        ),
        0xb5 | 0xb4 | 0x95 | 0x94 | 0x75 | 0xf5 | 0x35 | 0x55 | 0x15 | 0xd5 | 0x14 | 0x34 | 0x54
            | 0x74 | 0xd4 | 0xf4 => Some((2, 4, AddressingMode::ZeroPage_X)),
        0xb6 | 0x96 | 0xb7 | 0x97 => Some((2, 4, AddressingMode::ZeroPage_Y)),
        0x06 | 0x46 | 0x26 | 0x66 | 0xe6 | 0xc6 | 0xc7 | 0x27 | 0x07 | 0x47 | 0x67 | 0xe7 => Some(
            (2, 5, AddressingMode::ZeroPage),
        ),
        0x16 | 0x56 | 0x36 | 0x76 | 0xf6 | 0xd6 | 0xd7 | 0x37 | 0x17 | 0x57 | 0x77 | 0xf7 => Some(
            (2, 6, AddressingMode::ZeroPage_X),
        ),
        0xad | 0xae | 0xac | 0x8d | 0x8e | 0x8c | 0x6d | 0xed | 0x2d | 0x4d | 0x0d | 0xcd | 0xec
            | 0xcc | 0x2c | 0x0c | 0xaf | 0x8f => Some((3, 4, AddressingMode::Absolute)),
        0x4c => Some((3, 3, AddressingMode::Absolute)),
        0x20 | 0x0e | 0x4e | 0x2e | 0x6e | 0xee | 0xce | 0xcf | 0x2f | 0x0f | 0x4f | 0x6f | 0xef
            => Some((3, 6, AddressingMode::Absolute)),
        0xbd | 0xbc | 0x7d | 0xfd | 0x3d | 0x5d | 0x1d | 0xdd | 0x1c | 0x3c | 0x5c | 0x7c | 0xdc
            | 0xfc => Some((3, 4, AddressingMode::Absolute_X)),
        0x9d => Some((3, 5, AddressingMode::Absolute_X)),
        0x1e | 0x5e | 0x3e | 0x7e | 0xfe | 0xde | 0xdf | 0x3f | 0x1f | 0x5f | 0x7f | 0xff => Some(
            (3, 7, AddressingMode::Absolute_X),
        ),
        0xb9 | 0xbe | 0x79 | 0xf9 | 0x39 | 0x59 | 0x19 | 0xd9 | 0xbf => Some(
            (3, 4, AddressingMode::Absolute_Y),
        ),
        0x99 => Some((3, 5, AddressingMode::Absolute_Y)),
        0xdb | 0x3b | 0x1b | 0x5b | 0x7b | 0xfb => Some((3, 7, AddressingMode::Absolute_Y)),
        0xa1 | 0x81 | 0x61 | 0xe1 | 0x21 | 0x41 | 0x01 | 0xc1 | 0xa3 | 0x83 => Some(
            (2, 6, AddressingMode::Indirect_X),
        ),
        0xc3 | 0x23 | 0x03 | 0x43 | 0x63 | 0xe3 => Some((2, 8, AddressingMode::Indirect_X)),
        0xb1 | 0x71 | 0xf1 | 0x31 | 0x51 | 0x11 | 0xd1 | 0xb3 => Some(
            (2, 5, AddressingMode::Indirect_Y),
        ),
        0x91 => Some((2, 6, AddressingMode::Indirect_Y)),
        0xd3 | 0x33 | 0x13 | 0x53 | 0x73 | 0xf3 => Some((2, 8, AddressingMode::Indirect_Y)),
        _ => None,
    };
    match entry {
        Some((len, cycles, mode)) => Some(OpCode::new(code, opcode_mnemonic(code), len, cycles, mode)),
        None => None,
    }
}


/// No instruction costs more than eight base cycles.
pub proof fn lemma_opcode_cycles_bound(code: u8)
    ensures
        spec_opcode_known(code) ==> spec_opcode_cycles(code) <= 8,
{
}

/// Every known opcode is one to three bytes long.
pub proof fn lemma_opcode_len_bound(code: u8)
    ensures
        spec_opcode_known(code) ==> 1 <= spec_opcode_len(code) <= 3,
{
}

} // verus!
