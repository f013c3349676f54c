//! The 6502 CPU interpreter: registers, status flags, effective-address
//! computation, the instruction set, and the fetch/decode/execute loop with
//! NMI handling.

use crate::bus::{spec_pure_readable, spec_read_forbidden, spec_write_error, spec_write_refused, Bus};
use crate::errors::EmuError;
use crate::ppu::NesPPU;
use vstd::prelude::*;

verus! {

/// The data-carrying addressing modes; implied, relative, accumulator and
/// the special indirect JMP fall under `NoneAddressing` and are handled by
/// the instructions themselves.
#[allow(non_camel_case_types)]
#[derive(Debug, PartialEq, Eq, Clone, Copy, Structural)]
pub enum AddressingMode {
    Immediate,
    ZeroPage,
    ZeroPage_X,
    ZeroPage_Y,
    Absolute,
    Absolute_X,
    Absolute_Y,
    Indirect_X,
    Indirect_Y,
    NoneAddressing,
}

#[derive(Debug, PartialEq, Eq, Clone, Copy, Structural)]
pub enum InterruptType {
    NMI,
}

// Status register P, layout `N V - B D I Z C`.
pub open spec fn flag_c(s: u8) -> bool {
    s & 0b0000_0001 != 0
}

pub open spec fn flag_z(s: u8) -> bool {
    s & 0b0000_0010 != 0
}

pub open spec fn flag_i(s: u8) -> bool {
    s & 0b0000_0100 != 0
}

pub open spec fn flag_d(s: u8) -> bool {
    s & 0b0000_1000 != 0
}

pub open spec fn flag_b(s: u8) -> bool {
    s & 0b0001_0000 != 0
}

pub open spec fn flag_v(s: u8) -> bool {
    s & 0b0100_0000 != 0
}

pub open spec fn flag_n(s: u8) -> bool {
    s & 0b1000_0000 != 0
}

/// The status byte after an instruction deposits `result`: Z is set exactly
/// when the result is zero, N copies its top bit, the rest is untouched.
pub open spec fn spec_update_zn(s: u8, result: u8) -> u8 {
    let s1 = if result == 0 {
        s | 0b0000_0010
    } else {
        s & 0b1111_1101
    };
    if result & 0b1000_0000 != 0 {
        s1 | 0b1000_0000
    } else {
        s1 & 0b0111_1111
    }
}

/// What `spec_update_zn` does, read flag by flag.
pub proof fn lemma_update_zn_flags(s: u8, result: u8)
    by (bit_vector)
    ensures
        flag_z(spec_update_zn(s, result)) == (result == 0),
        flag_n(spec_update_zn(s, result)) == (result >= 0x80),
        flag_c(spec_update_zn(s, result)) == flag_c(s),
        flag_v(spec_update_zn(s, result)) == flag_v(s),
        flag_i(spec_update_zn(s, result)) == flag_i(s),
        flag_d(spec_update_zn(s, result)) == flag_d(s),
        flag_b(spec_update_zn(s, result)) == flag_b(s),
        spec_update_zn(s, result) & 0b0111_1100 == s & 0b0111_1100,
{
}


/// Testing a single-bit mask for equality with the mask is the same as
/// testing it nonzero.
pub proof fn lemma_single_bit_test(s: u8)
    by (bit_vector)
    ensures
        (s & 0b0000_0001 == 0b0000_0001) == (s & 0b0000_0001 != 0),
        (s & 0b0000_0010 == 0b0000_0010) == (s & 0b0000_0010 != 0),
        (s & 0b0001_0000 == 0b0001_0000) == (s & 0b0001_0000 != 0),
        (s & 0b0100_0000 == 0b0100_0000) == (s & 0b0100_0000 != 0),
        (s & 0b1000_0000 == 0b1000_0000) == (s & 0b1000_0000 != 0),
        (s | 0b0001_0000) & 0b0001_0000 != 0,
{
}

/// Two addresses cross a page when their high bytes differ.
pub open spec fn spec_page_cross(addr1: u16, addr2: u16) -> bool {
    addr1 & 0xff00 != addr2 & 0xff00
}

pub fn page_cross(addr1: u16, addr2: u16) -> (r: bool)
    ensures
        r == spec_page_cross(addr1, addr2),
{
    addr1 & 0xff00 != addr2 & 0xff00
}


/// Status after a comparison: C holds exactly when the register is at least
/// the operand, Z and N come from their wrapping difference.
pub open spec fn spec_compare_status(s: u8, reg: u8, v: u8) -> u8 {
    spec_update_zn(
        if reg >= v {
            s | 0b0000_0001
        } else {
            s & 0b1111_1110
        },
        reg.wrapping_sub(v),
    )
}

/// Status after a shift or rotate: C is set to `carry` (the bit shifted
/// out), then Z and N come from the result.
pub open spec fn spec_carry_zn(s: u8, carry: bool, result: u8) -> u8 {
    spec_update_zn(
        if carry {
            s | 0b0000_0001
        } else {
            s & 0b1111_1110
        },
        result,
    )
}

/// Status after BIT: Z from the masked accumulator, V and N copied from
/// operand bits 6 and 7.
pub open spec fn spec_bit_status(s: u8, a: u8, v: u8) -> u8 {
    let s1 = if a & v == 0 {
        s | 0b0000_0010
    } else {
        s & 0b1111_1101
    };
    let s2 = if v & 0b0100_0000 == 0b0100_0000 {
        s1 | 0b0100_0000
    } else {
        s1 & 0b1011_1111
    };
    let s3 = if v & 0b1000_0000 == 0b1000_0000 {
        s2 | 0b1000_0000
    } else {
        s2 & 0b0111_1111
    };
    s3 | (v & 0b1100_0000)
}


/// Branch target: the program counter past the offset byte plus the offset
/// taken as signed 8-bit, wrapping within 16 bits.
pub open spec fn spec_branch_target(pc: u16, off: u8) -> u16 {
    let base = pc.wrapping_add(1).wrapping_add(off as u16);
    if off >= 0x80 {
        base.wrapping_add(0xff00)
    } else {
        base
    }
}

/// Status pulled from the stack: the B flag is dropped and the unused bit 5
/// forced on.
pub open spec fn spec_plp_value(t: u8) -> u8 {
    (if t & 0b0001_0000 == 0b0001_0000 {
        t & 0b1110_1111
    } else {
        t
    }) | 0b0010_0000
}


/// The accumulator after ADC: the 9-bit sum of A, the operand and the carry
/// flag, reduced modulo 256.
pub open spec fn spec_adc_result(a: u8, data: u8, s: u8) -> u8 {
    ((a + data + (s & 1)) % 256) as u8
}

/// The status after ADC: C is the 9-bit carry, V the signed-overflow
/// formula, Z and N come from the result.
pub open spec fn spec_adc_status(s: u8, a: u8, data: u8) -> u8 {
    let sum = a + data + (s & 1);
    let result = (sum % 256) as u8;
    let s1 = if sum > 0xff {
        s | 0b0000_0001
    } else {
        s & 0b1111_1110
    };
    let s2 = if (data ^ result) & (result ^ a) & 0x80 != 0 {
        s1 | 0b0100_0000
    } else {
        s1 & 0b1011_1111
    };
    spec_update_zn(s2, result)
}

/// How setting C and V moves through the status byte: each leaves the other
/// bits alone.
pub proof fn lemma_carry_overflow_bits(s: u8)
    by (bit_vector)
    ensures
        flag_c(s | 0b0000_0001),
        !flag_c(s & 0b1111_1110),
        flag_c(s | 0b0100_0000) == flag_c(s),
        flag_c(s & 0b1011_1111) == flag_c(s),
        flag_v(s | 0b0100_0000),
        !flag_v(s & 0b1011_1111),
        flag_v(s | 0b0000_0001) == flag_v(s),
        flag_v(s & 0b1111_1110) == flag_v(s),
        s & 1 <= 1,
        (s & 1 == 1) == flag_c(s),
{
}


/// What one step reports: the opcode executed, whether an NMI was serviced
/// first, whether the instruction was BRK, and whether a frame completed
/// during the instruction.
pub struct StepInfo {
    pub opcode: u8,
    pub nmi: bool,
    pub brk: bool,
    pub frame: bool,
}

/// The opcodes whose execution can never fault: BRK and the one-byte
/// implied instructions (transfers, flag operations, register increments,
/// stack pushes and pulls, and the single-byte NOPs), which touch only
/// registers and the stack page.
pub open spec fn spec_opcode_infallible(code: u8) -> bool {
    ||| code == 0x00
    ||| code == 0xea
    ||| code == 0x1a
    ||| code == 0x3a
    ||| code == 0x5a
    ||| code == 0x7a
    ||| code == 0xda
    ||| code == 0xfa
    ||| code == 0x02
    ||| code == 0x12
    ||| code == 0x22
    ||| code == 0x32
    ||| code == 0x42
    ||| code == 0x52
    ||| code == 0x62
    ||| code == 0x72
    ||| code == 0x92
    ||| code == 0xb2
    ||| code == 0xd2
    ||| code == 0xf2
    ||| code == 0xaa
    ||| code == 0xa8
    ||| code == 0x8a
    ||| code == 0x98
    ||| code == 0xba
    ||| code == 0x9a
    ||| code == 0xe8
    ||| code == 0xca
    ||| code == 0xc8
    ||| code == 0x88
    ||| code == 0x38
    ||| code == 0x18
    ||| code == 0x78
    ||| code == 0x58
    ||| code == 0xf8
    ||| code == 0xd8
    ||| code == 0xb8
    ||| code == 0x48
    ||| code == 0x08
    ||| code == 0x68
    ||| code == 0x28
}

/// Every infallible opcode sits in the table as a one-byte implied
/// instruction.
pub proof fn lemma_infallible_is_known(code: u8)
    ensures
        spec_opcode_infallible(code) ==> (crate::opcodes::spec_opcode_known(code)
            && crate::opcodes::spec_opcode_mode(code) == AddressingMode::NoneAddressing),
{
}

/// The opcodes that write the program counter themselves: the jumps and
/// returns always, BRK, and each branch exactly when its condition holds in
/// `status`.
pub open spec fn spec_opcode_writes_pc(code: u8, status: u8) -> bool {
    ||| code == 0x4c
    ||| code == 0x6c
    ||| code == 0x20
    ||| code == 0x60
    ||| code == 0x40
    ||| code == 0x00
    ||| (code == 0xd0 && !flag_z(status))
    ||| (code == 0xf0 && flag_z(status))
    ||| (code == 0x90 && !flag_c(status))
    ||| (code == 0xb0 && flag_c(status))
    ||| (code == 0x30 && flag_n(status))
    ||| (code == 0x10 && !flag_n(status))
    ||| (code == 0x50 && !flag_v(status))
    ||| (code == 0x70 && flag_v(status))
}

pub struct CPU {
    pub register_a: u8,
    pub register_x: u8,
    pub register_y: u8,
    pub stack_pointer: u8,
    pub status: u8,
    pub program_counter: u16,
    pub bus: Bus,
}

/// The CPU registers of `a` and `b` agree; the bus may differ.
pub open spec fn spec_regs_unchanged(a: CPU, b: CPU) -> bool {
    &&& a.register_a == b.register_a
    &&& a.register_x == b.register_x
    &&& a.register_y == b.register_y
    &&& a.stack_pointer == b.stack_pointer
    &&& a.status == b.status
    &&& a.program_counter == b.program_counter
}

/// CPU RAM and program ROM agree between `a` and `b`.
pub open spec fn spec_mem_unchanged(a: CPU, b: CPU) -> bool {
    &&& a.bus.cpu_vram@ == b.bus.cpu_vram@
    &&& a.bus.prg_rom@ == b.bus.prg_rom@
}

impl CPU {
    pub open spec fn wf(self) -> bool {
        self.bus.wf()
    }

    /// The effective address (with its page-cross flag) that `mode` resolves
    /// to at `addr`, assuming every byte consulted lies in a side-effect-free
    /// region of the bus.
    pub open spec fn spec_absolute_address(self, mode: AddressingMode, addr: u16) -> (u16, bool) {
        match mode {
            AddressingMode::ZeroPage => (self.bus.spec_pure_read(addr) as u16, false),
            AddressingMode::Absolute => (self.bus.spec_pure_read_u16(addr) as u16, false),
            AddressingMode::ZeroPage_X => (
                self.bus.spec_pure_read(addr).wrapping_add(self.register_x) as u16,
                false,
            ),
            AddressingMode::ZeroPage_Y => (
                self.bus.spec_pure_read(addr).wrapping_add(self.register_y) as u16,
                false,
            ),
            AddressingMode::Absolute_X => {
                let base = self.bus.spec_pure_read_u16(addr) as u16;
                let target = base.wrapping_add(self.register_x as u16);
                (target, spec_page_cross(base, target))
            },
            AddressingMode::Absolute_Y => {
                let base = self.bus.spec_pure_read_u16(addr) as u16;
                let target = base.wrapping_add(self.register_y as u16);
                (target, spec_page_cross(base, target))
            },
            AddressingMode::Indirect_X => {
                let ptr = self.bus.spec_pure_read(addr).wrapping_add(self.register_x);
                let lo = self.bus.spec_pure_read(ptr as u16);
                let hi = self.bus.spec_pure_read(ptr.wrapping_add(1) as u16);
                ((hi as int * 256 + lo) as u16, false)
            },
            AddressingMode::Indirect_Y => {
                let base = self.bus.spec_pure_read(addr);
                let lo = self.bus.spec_pure_read(base as u16);
                let hi = self.bus.spec_pure_read(base.wrapping_add(1) as u16);
                let deref_base = (hi as int * 256 + lo) as u16;
                let deref = deref_base.wrapping_add(self.register_y as u16);
                (deref, spec_page_cross(deref, deref_base))
            },
            _ => (0, false),
        }
    }

    /// Every byte that resolving `mode` at `addr` consults lies in a
    /// side-effect-free region.
    pub open spec fn spec_absolute_reads_pure(self, mode: AddressingMode, addr: u16) -> bool {
        match mode {
            AddressingMode::ZeroPage => spec_pure_readable(addr),
            AddressingMode::Absolute => spec_pure_readable(addr) && spec_pure_readable(
                addr.wrapping_add(1),
            ),
            AddressingMode::ZeroPage_X => spec_pure_readable(addr),
            AddressingMode::ZeroPage_Y => spec_pure_readable(addr),
            AddressingMode::Absolute_X => spec_pure_readable(addr) && spec_pure_readable(
                addr.wrapping_add(1),
            ),
            AddressingMode::Absolute_Y => spec_pure_readable(addr) && spec_pure_readable(
                addr.wrapping_add(1),
            ),
            AddressingMode::Indirect_X => {
                let ptr = self.bus.spec_pure_read(addr).wrapping_add(self.register_x);
                spec_pure_readable(addr) && spec_pure_readable(ptr as u16) && spec_pure_readable(
                    ptr.wrapping_add(1) as u16,
                )
            },
            AddressingMode::Indirect_Y => {
                let base = self.bus.spec_pure_read(addr);
                spec_pure_readable(addr) && spec_pure_readable(base as u16) && spec_pure_readable(
                    base.wrapping_add(1) as u16,
                )
            },
            _ => false,
        }
    }

    /// The operand address of the current instruction: immediate mode names
    /// the program counter itself, every other mode resolves at it.
    pub open spec fn spec_operand_address(self, mode: AddressingMode) -> (u16, bool) {
        if mode == AddressingMode::Immediate {
            (self.program_counter, false)
        } else {
            self.spec_absolute_address(mode, self.program_counter)
        }
    }

    pub open spec fn spec_operand_reads_pure(self, mode: AddressingMode) -> bool {
        if mode == AddressingMode::Immediate {
            true
        } else {
            self.spec_absolute_reads_pure(mode, self.program_counter)
        }
    }

    /// The addressing chain and the operand byte itself are all in
    /// side-effect-free regions.
    pub open spec fn spec_operand_pure(self, mode: AddressingMode) -> bool {
        self.spec_operand_reads_pure(mode) && spec_pure_readable(self.spec_operand_address(mode).0)
    }

    /// The operand value the current instruction works on.
    pub open spec fn spec_operand_value(self, mode: AddressingMode) -> u8 {
        self.bus.spec_pure_read(self.spec_operand_address(mode).0)
    }

    pub open spec fn spec_operand_crossed(self, mode: AddressingMode) -> bool {
        self.spec_operand_address(mode).1
    }


    /// The pointer and both bytes it designates are in side-effect-free
    /// regions, for the indirect JMP.
    pub open spec fn spec_jmp_indirect_pure(self) -> bool {
        let pc = self.program_counter;
        let ptr = self.bus.spec_pure_read_u16(pc) as u16;
        &&& spec_pure_readable(pc)
        &&& spec_pure_readable(pc.wrapping_add(1))
        &&& spec_pure_readable(ptr)
        &&& spec_pure_readable(ptr.wrapping_add(1))
        &&& spec_pure_readable(ptr & 0xff00)
    }

    /// Where the indirect JMP lands: the high byte comes from the start of
    /// the pointer's page when the pointer ends in `$FF`.
    pub open spec fn spec_jmp_indirect_target(self) -> u16 {
        let ptr = self.bus.spec_pure_read_u16(self.program_counter) as u16;
        if ptr & 0x00ff == 0x00ff {
            (self.bus.spec_pure_read(ptr & 0xff00) * 256 + self.bus.spec_pure_read(ptr)) as u16
        } else {
            self.bus.spec_pure_read_u16(ptr) as u16
        }
    }

    pub fn new(bus: Bus) -> (r: CPU)
        ensures
            r.register_a == 0,
            r.register_x == 0,
            r.register_y == 0,
            r.stack_pointer == 0xfd,
            r.status == 0b0010_0100,
            r.program_counter == 0,
            r.bus == bus,
    {
        CPU {
            register_a: 0,
            register_x: 0,
            register_y: 0,
            stack_pointer: 0xfd,
            status: 0b0010_0100,
            program_counter: 0,
            bus: bus,
        }
    }

    pub fn mem_read(&mut self, addr: u16) -> (r: Result<u8, EmuError>)
        requires
            old(self).wf(),
        ensures
            final(self).wf(),
            old(self).bus.frame_pending ==> final(self).bus.frame_pending,
            spec_regs_unchanged(*old(self), *final(self)),
            spec_mem_unchanged(*old(self), *final(self)),
            final(self).bus.cycles == old(self).bus.cycles,
            final(self).bus.frame_pending == old(self).bus.frame_pending,
            r is Err <==> crate::bus::spec_read_forbidden(addr),
            spec_pure_readable(addr) ==> (r == Ok::<u8, EmuError>(old(self).bus.spec_pure_read(addr))
                && *final(self) == *old(self)),
            r is Err ==> *final(self) == *old(self),
    {
        let r = self.bus.mem_read(addr);
        r
    }

    pub fn mem_write(&mut self, addr: u16, data: u8) -> (r: Result<(), EmuError>)
        requires
            old(self).wf(),
        ensures
            final(self).wf(),
            old(self).bus.frame_pending ==> final(self).bus.frame_pending,
            spec_regs_unchanged(*old(self), *final(self)),
            final(self).bus.prg_rom@ == old(self).bus.prg_rom@,
            final(self).bus.cycles == old(self).bus.cycles,
            final(self).bus.frame_pending == old(self).bus.frame_pending,
            r is Err <==> spec_write_refused(addr, data),
            r is Err ==> (r == Err::<(), EmuError>(spec_write_error(addr, data)) && *final(self)
                == *old(self)),
            addr < 0x2000 ==> (final(self).bus.cpu_vram@ == old(self).bus.cpu_vram@.update(
                (addr % 0x800) as int,
                data,
            ) && *final(self) == (CPU {
                bus: Bus { cpu_vram: final(self).bus.cpu_vram, ..old(self).bus },
                ..*old(self)
            })),
    {
        let r = self.bus.mem_write(addr, data);
        r
    }

    pub fn mem_read_u16(&mut self, pos: u16) -> (r: Result<u16, EmuError>)
        requires
            old(self).wf(),
        ensures
            final(self).wf(),
            old(self).bus.frame_pending ==> final(self).bus.frame_pending,
            spec_regs_unchanged(*old(self), *final(self)),
            spec_mem_unchanged(*old(self), *final(self)),
            final(self).bus.cycles == old(self).bus.cycles,
            final(self).bus.frame_pending == old(self).bus.frame_pending,
            spec_pure_readable(pos) && spec_pure_readable(pos.wrapping_add(1)) ==> (r == Ok::<
                u16,
                EmuError,
            >(old(self).bus.spec_pure_read_u16(pos) as u16) && *final(self) == *old(self)),
            r is Err <==> (spec_read_forbidden(pos) || spec_read_forbidden(pos.wrapping_add(1))),
            spec_read_forbidden(pos) ==> (r == Err::<u16, EmuError>(EmuError::WriteOnlyRead(pos))
                && *final(self) == *old(self)),
            (!spec_read_forbidden(pos) && spec_read_forbidden(pos.wrapping_add(1))) ==> r == Err::<
                u16,
                EmuError,
            >(EmuError::WriteOnlyRead(pos.wrapping_add(1))),
    {
        let r = self.bus.mem_read_u16(pos);
        r
    }

    pub fn mem_write_u16(&mut self, pos: u16, data: u16) -> (r: Result<(), EmuError>)
        requires
            old(self).wf(),
        ensures
            final(self).wf(),
            old(self).bus.frame_pending ==> final(self).bus.frame_pending,
            spec_regs_unchanged(*old(self), *final(self)),
            final(self).bus.prg_rom@ == old(self).bus.prg_rom@,
            (pos < 0x2000 && pos.wrapping_add(1) < 0x2000) ==> (r is Ok && final(self).bus.cpu_vram@ == old(self).bus.cpu_vram@.update(
                (pos % 0x800) as int,
                (data % 0x100) as u8,
            ).update((pos.wrapping_add(1) % 0x800) as int, (data / 0x100) as u8) && *final(self)
                == (CPU {
                bus: Bus { cpu_vram: final(self).bus.cpu_vram, ..old(self).bus },
                ..*old(self)
            })),
            r is Err <==> (spec_write_refused(pos, (data % 0x100) as u8) || spec_write_refused(
                pos.wrapping_add(1),
                (data / 0x100) as u8,
            )),
            spec_write_refused(pos, (data % 0x100) as u8) ==> (r == Err::<(), EmuError>(
                spec_write_error(pos, (data % 0x100) as u8),
            ) && *final(self) == *old(self)),
            (!spec_write_refused(pos, (data % 0x100) as u8) && spec_write_refused(
                pos.wrapping_add(1),
                (data / 0x100) as u8,
            )) ==> r == Err::<(), EmuError>(
                spec_write_error(pos.wrapping_add(1), (data / 0x100) as u8),
            ),
    {
        let r = self.bus.mem_write_u16(pos, data);
        r
    }

    /// Power-on / cartridge-change reset: registers cleared, the stack
    /// pointer at `$FD`, interrupts masked, and the program counter loaded
    /// from the reset vector at `$FFFC`.
    pub fn reset(&mut self)
        requires
            old(self).wf(),
        ensures
            final(self).wf(),
            old(self).bus.frame_pending ==> final(self).bus.frame_pending,
            final(self).register_a == 0,
            final(self).register_x == 0,
            final(self).register_y == 0,
            final(self).stack_pointer == 0xfd,
            final(self).status == 0b0010_0100,
            final(self).program_counter == old(self).bus.spec_pure_read_u16(0xfffc),
            final(self).bus == old(self).bus,
    {
        self.register_a = 0;
        self.register_x = 0;
        self.register_y = 0;
        self.status = 0b0010_0100;
        self.stack_pointer = 0xfd;

        self.program_counter = match self.mem_read_u16(0xfffc) {
            Ok(v) => v,
            Err(_) => {
                proof {
                    assert(false);
                }
                0
            },
        };
    }

    /// Test helper: copies a program into work RAM at `$0600`.
    pub fn load(&mut self, program: Vec<u8>)
        requires
            old(self).wf(),
            program@.len() <= 0x200,
        ensures
            final(self).wf(),
            old(self).bus.frame_pending ==> final(self).bus.frame_pending,
            spec_regs_unchanged(*old(self), *final(self)),
            final(self).bus.prg_rom@ == old(self).bus.prg_rom@,
            forall|i: int|
                0 <= i < program@.len() ==> final(self).bus.cpu_vram@[0x600 + i] == program@[i],
            forall|j: int|
                0 <= j < 2048 && !(0x600 <= j < 0x600 + program@.len()) ==> final(self).bus.cpu_vram@[j] == old(self).bus.cpu_vram@[j],
            *final(self) == (CPU {
                bus: Bus { cpu_vram: final(self).bus.cpu_vram, ..old(self).bus },
                ..*old(self)
            }),
    {
        let mut i: usize = 0;
        while i < program.len()
            invariant
                old(self).wf(),
                self.wf(),
                program@.len() <= 0x200,
                i <= program@.len(),
                forall|k: int| 0 <= k < i ==> self.bus.cpu_vram@[0x600 + k] == program@[k],
                forall|j: int|
                    0 <= j < 2048 && !(0x600 <= j < 0x600 + i) ==> self.bus.cpu_vram@[j] == old(self).bus.cpu_vram@[j],
                *self == (CPU {
                    bus: Bus { cpu_vram: self.bus.cpu_vram, ..old(self).bus },
                    ..*old(self)
                }),
            decreases program@.len() - i,
        {
            let addr = 0x0600 + (i as u16);
            let value = program[i];
            match self.mem_write(addr, value) {
                Ok(_) => {},
                Err(_) => {
                    proof {
                        assert(false);
                    }
                },
            }
            i += 1;
        }
    }

    /// Effective address and page-cross flag for a data-carrying addressing
    /// mode rooted at `addr`; exact whenever the bytes consulted lie in
    /// side-effect-free regions.
    pub fn get_absolute_address(&mut self, mode: &AddressingMode, addr: u16) -> (r: Result<
        (u16, bool),
        EmuError,
    >)
        requires
            old(self).wf(),
            *mode != AddressingMode::Immediate,
            *mode != AddressingMode::NoneAddressing,
        ensures
            final(self).wf(),
            old(self).bus.frame_pending ==> final(self).bus.frame_pending,
            spec_regs_unchanged(*old(self), *final(self)),
            spec_mem_unchanged(*old(self), *final(self)),
            final(self).bus.cycles == old(self).bus.cycles,
            final(self).bus.frame_pending == old(self).bus.frame_pending,
            old(self).spec_absolute_reads_pure(*mode, addr) ==> (r == Ok::<(u16, bool), EmuError>(
                old(self).spec_absolute_address(*mode, addr),
            ) && *final(self) == *old(self)),
    {
        match mode {
            AddressingMode::ZeroPage => {
                let pos = match self.mem_read(addr) {
                    Ok(v) => v,
                    Err(e) => {
                        return Err(e);
                    },
                };
                Ok((pos as u16, false))
            },
            AddressingMode::Absolute => {
                let pos = match self.mem_read_u16(addr) {
                    Ok(v) => v,
                    Err(e) => {
                        return Err(e);
                    },
                };
                Ok((pos, false))
            },
            AddressingMode::ZeroPage_X => {
                let pos = match self.mem_read(addr) {
                    Ok(v) => v,
                    Err(e) => {
                        return Err(e);
                    },
                };
                Ok((pos.wrapping_add(self.register_x) as u16, false))
            },
            AddressingMode::ZeroPage_Y => {
                let pos = match self.mem_read(addr) {
                    Ok(v) => v,
                    Err(e) => {
                        return Err(e);
                    },
                };
                Ok((pos.wrapping_add(self.register_y) as u16, false))
            },
            AddressingMode::Absolute_X => {
                let base = match self.mem_read_u16(addr) {
                    Ok(v) => v,
                    Err(e) => {
                        return Err(e);
                    },
                };
                let target = base.wrapping_add(self.register_x as u16);
                Ok((target, page_cross(base, target)))
            },
            AddressingMode::Absolute_Y => {
                let base = match self.mem_read_u16(addr) {
                    Ok(v) => v,
                    Err(e) => {
                        return Err(e);
                    },
                };
                let target = base.wrapping_add(self.register_y as u16);
                Ok((target, page_cross(base, target)))
            },
            AddressingMode::Indirect_X => {
                let base = match self.mem_read(addr) {
                    Ok(v) => v,
                    Err(e) => {
                        return Err(e);
                    },
                };
                let ptr: u8 = base.wrapping_add(self.register_x);
                let lo = match self.mem_read(ptr as u16) {
                    Ok(v) => v,
                    Err(e) => {
                        return Err(e);
                    },
                };
                let hi = match self.mem_read(ptr.wrapping_add(1) as u16) {
                    Ok(v) => v,
                    Err(e) => {
                        return Err(e);
                    },
                };
                Ok(((hi as u16) * 256 + (lo as u16), false))
            },
            AddressingMode::Indirect_Y => {
                let base = match self.mem_read(addr) {
                    Ok(v) => v,
                    Err(e) => {
                        return Err(e);
                    },
                };
                let lo = match self.mem_read(base as u16) {
                    Ok(v) => v,
                    Err(e) => {
                        return Err(e);
                    },
                };
                let hi = match self.mem_read(base.wrapping_add(1) as u16) {
                    Ok(v) => v,
                    Err(e) => {
                        return Err(e);
                    },
                };
                let deref_base = (hi as u16) * 256 + (lo as u16);
                let deref = deref_base.wrapping_add(self.register_y as u16);
                Ok((deref, page_cross(deref, deref_base)))
            },
            _ => {
                proof {
                    assert(false);
                }
                Ok((0, false))
            },
        }
    }

    /// Operand address of the current instruction.
    fn get_operand_address(&mut self, mode: &AddressingMode) -> (r: Result<(u16, bool), EmuError>)
        requires
            old(self).wf(),
            *mode != AddressingMode::NoneAddressing,
        ensures
            final(self).wf(),
            old(self).bus.frame_pending ==> final(self).bus.frame_pending,
            spec_regs_unchanged(*old(self), *final(self)),
            spec_mem_unchanged(*old(self), *final(self)),
            final(self).bus.cycles == old(self).bus.cycles,
            final(self).bus.frame_pending == old(self).bus.frame_pending,
            old(self).spec_operand_reads_pure(*mode) ==> (r == Ok::<(u16, bool), EmuError>(
                old(self).spec_operand_address(*mode),
            ) && *final(self) == *old(self)),
    {
        match mode {
            AddressingMode::Immediate => Ok((self.program_counter, false)),
            _ => self.get_absolute_address(mode, self.program_counter),
        }
    }

    fn update_zero_and_negative_flags(&mut self, result: u8)
        ensures
            *final(self) == (CPU { status: spec_update_zn(old(self).status, result), ..*old(self) }),
    {
        if result == 0 {
            self.status = self.status | 0b0000_0010;
        } else {
            self.status = self.status & 0b1111_1101;
        }

        if result & 0b1000_0000 != 0 {
            self.status = self.status | 0b1000_0000;
        } else {
            self.status = self.status & 0b0111_1111;
        }
    }

    fn sec(&mut self)
        ensures
            *final(self) == (CPU { status: old(self).status | 0b0000_0001, ..*old(self) }),
    {
        self.status = self.status | 0b0000_0001;
    }

    fn set_v(&mut self)
        ensures
            *final(self) == (CPU { status: old(self).status | 0b0100_0000, ..*old(self) }),
    {
        self.status = self.status | 0b0100_0000;
    }

    fn clc(&mut self)
        ensures
            *final(self) == (CPU { status: old(self).status & 0b1111_1110, ..*old(self) }),
    {
        self.status = self.status & 0b1111_1110;
    }

    fn sei(&mut self)
        ensures
            *final(self) == (CPU { status: old(self).status | 0b0000_0100, ..*old(self) }),
    {
        self.status = self.status | 0b0000_0100;
    }

    fn cli(&mut self)
        ensures
            *final(self) == (CPU { status: old(self).status & 0b1111_1011, ..*old(self) }),
    {
        self.status = self.status & 0b1111_1011;
    }

    fn sed(&mut self)
        ensures
            *final(self) == (CPU { status: old(self).status | 0b0000_1000, ..*old(self) }),
    {
        self.status = self.status | 0b0000_1000;
    }

    fn cld(&mut self)
        ensures
            *final(self) == (CPU { status: old(self).status & 0b1111_0111, ..*old(self) }),
    {
        self.status = self.status & 0b1111_0111;
    }

    fn clv(&mut self)
        ensures
            *final(self) == (CPU { status: old(self).status & 0b1011_1111, ..*old(self) }),
    {
        self.status = self.status & 0b1011_1111;
    }

    fn tax(&mut self)
        ensures
            *final(self) == (CPU {
                register_x: old(self).register_a,
                status: spec_update_zn(old(self).status, old(self).register_a),
                ..*old(self)
            }),
    {
        self.register_x = self.register_a;
        self.update_zero_and_negative_flags(self.register_x);
    }

    fn tay(&mut self)
        ensures
            *final(self) == (CPU {
                register_y: old(self).register_a,
                status: spec_update_zn(old(self).status, old(self).register_a),
                ..*old(self)
            }),
    {
        self.register_y = self.register_a;
        self.update_zero_and_negative_flags(self.register_y);
    }

    fn txa(&mut self)
        ensures
            *final(self) == (CPU {
                register_a: old(self).register_x,
                status: spec_update_zn(old(self).status, old(self).register_x),
                ..*old(self)
            }),
    {
        self.register_a = self.register_x;
        self.update_zero_and_negative_flags(self.register_a);
    }

    fn tya(&mut self)
        ensures
            *final(self) == (CPU {
                register_a: old(self).register_y,
                status: spec_update_zn(old(self).status, old(self).register_y),
                ..*old(self)
            }),
    {
        self.register_a = self.register_y;
        self.update_zero_and_negative_flags(self.register_a);
    }

    fn tsx(&mut self)
        ensures
            *final(self) == (CPU {
                register_x: old(self).stack_pointer,
                status: spec_update_zn(old(self).status, old(self).stack_pointer),
                ..*old(self)
            }),
    {
        self.register_x = self.stack_pointer;
        self.update_zero_and_negative_flags(self.register_x);
    }

    fn txs(&mut self)
        ensures
            *final(self) == (CPU { stack_pointer: old(self).register_x, ..*old(self) }),
    {
        self.stack_pointer = self.register_x;
    }

    fn inx(&mut self)
        ensures
            *final(self) == (CPU {
                register_x: old(self).register_x.wrapping_add(1),
                status: spec_update_zn(old(self).status, old(self).register_x.wrapping_add(1)),
                ..*old(self)
            }),
    {
        if self.register_x == 0xff {
            self.register_x = 0;
        } else {
            self.register_x += 1;
        }
        self.update_zero_and_negative_flags(self.register_x);
    }

    fn dex(&mut self)
        ensures
            *final(self) == (CPU {
                register_x: old(self).register_x.wrapping_sub(1),
                status: spec_update_zn(old(self).status, old(self).register_x.wrapping_sub(1)),
                ..*old(self)
            }),
    {
        if self.register_x == 0 {
            self.register_x = 0xff;
        } else {
            self.register_x -= 1;
        }
        self.update_zero_and_negative_flags(self.register_x);
    }

    fn iny(&mut self)
        ensures
            *final(self) == (CPU {
                register_y: old(self).register_y.wrapping_add(1),
                status: spec_update_zn(old(self).status, old(self).register_y.wrapping_add(1)),
                ..*old(self)
            }),
    {
        if self.register_y == 0xff {
            self.register_y = 0;
        } else {
            self.register_y += 1;
        }
        self.update_zero_and_negative_flags(self.register_y);
    }

    fn dey(&mut self)
        ensures
            *final(self) == (CPU {
                register_y: old(self).register_y.wrapping_sub(1),
                status: spec_update_zn(old(self).status, old(self).register_y.wrapping_sub(1)),
                ..*old(self)
            }),
    {
        if self.register_y == 0 {
            self.register_y = 0xff;
        } else {
            self.register_y -= 1;
        }
        self.update_zero_and_negative_flags(self.register_y);
    }

    fn lda(&mut self, mode: &AddressingMode) -> (r: Result<(), EmuError>)
        requires
            old(self).wf(),
            *mode != AddressingMode::NoneAddressing,
        ensures
            final(self).wf(),
            old(self).bus.frame_pending ==> final(self).bus.frame_pending,
            spec_mem_unchanged(*old(self), *final(self)),
            r is Err ==> spec_regs_unchanged(*old(self), *final(self)),
            r is Ok ==> (final(self).program_counter == old(self).program_counter && final(self).register_x == old(self).register_x && final(self).register_y == old(self).register_y
                && final(self).stack_pointer == old(self).stack_pointer),
            old(self).spec_operand_pure(*mode) ==> ({
                let v = old(self).spec_operand_value(*mode);
                &&& r is Ok
                &&& final(self).register_a == v
                &&& final(self).status == spec_update_zn(old(self).status, v)
                &&& final(self).bus == if old(self).spec_operand_crossed(*mode) {
                    crate::bus::spec_after_tick(old(self).bus, 1)
                } else {
                    old(self).bus
                }
            }),
    {
        let (addr, page_crossed) = match self.get_operand_address(mode) {
            Ok(t) => t,
            Err(e) => {
                return Err(e);
            },
        };
        let value = match self.mem_read(addr) {
            Ok(v) => v,
            Err(e) => {
                return Err(e);
            },
        };

        self.register_a = value;
        self.update_zero_and_negative_flags(value);

        if page_crossed {
            self.bus.tick(1);
        }
        Ok(())
    }

    /// LDX: loads the operand into X and refreshes Z and N.
    fn ldx(&mut self, mode: &AddressingMode) -> (r: Result<(), EmuError>)
        requires
            old(self).wf(),
            *mode != AddressingMode::NoneAddressing,
        ensures
            final(self).wf(),
            old(self).bus.frame_pending ==> final(self).bus.frame_pending,
            spec_mem_unchanged(*old(self), *final(self)),
            r is Err ==> spec_regs_unchanged(*old(self), *final(self)),
            r is Ok ==> (final(self).program_counter == old(self).program_counter && final(self).register_a == old(self).register_a && final(self).register_y == old(self).register_y && final(self).stack_pointer == old(self).stack_pointer),
            old(self).spec_operand_pure(*mode) ==> ({
                let v = old(self).spec_operand_value(*mode);
                &&& r is Ok
                &&& final(self).register_x == v
                &&& final(self).status == spec_update_zn(old(self).status, v)
                &&& final(self).bus == if old(self).spec_operand_crossed(*mode) {
                    crate::bus::spec_after_tick(old(self).bus, 1)
                } else {
                    old(self).bus
                }
            }),
    {
        let (addr, page_crossed) = match self.get_operand_address(mode) {
            Ok(t) => t,
            Err(e) => {
                return Err(e);
            },
        };
        let value = match self.mem_read(addr) {
            Ok(v) => v,
            Err(e) => {
                return Err(e);
            },
        };

        self.register_x = value;
        let updated = self.register_x;
        self.update_zero_and_negative_flags(updated);

        if page_crossed {
            self.bus.tick(1);
        }
        Ok(())
    }

    /// LDY: loads the operand into Y and refreshes Z and N.
    fn ldy(&mut self, mode: &AddressingMode) -> (r: Result<(), EmuError>)
        requires
            old(self).wf(),
            *mode != AddressingMode::NoneAddressing,
        ensures
            final(self).wf(),
            old(self).bus.frame_pending ==> final(self).bus.frame_pending,
            spec_mem_unchanged(*old(self), *final(self)),
            r is Err ==> spec_regs_unchanged(*old(self), *final(self)),
            r is Ok ==> (final(self).program_counter == old(self).program_counter && final(self).register_a == old(self).register_a && final(self).register_x == old(self).register_x && final(self).stack_pointer == old(self).stack_pointer),
            old(self).spec_operand_pure(*mode) ==> ({
                let v = old(self).spec_operand_value(*mode);
                &&& r is Ok
                &&& final(self).register_y == v
                &&& final(self).status == spec_update_zn(old(self).status, v)
                &&& final(self).bus == if old(self).spec_operand_crossed(*mode) {
                    crate::bus::spec_after_tick(old(self).bus, 1)
                } else {
                    old(self).bus
                }
            }),
    {
        let (addr, page_crossed) = match self.get_operand_address(mode) {
            Ok(t) => t,
            Err(e) => {
                return Err(e);
            },
        };
        let value = match self.mem_read(addr) {
            Ok(v) => v,
            Err(e) => {
                return Err(e);
            },
        };

        self.register_y = value;
        let updated = self.register_y;
        self.update_zero_and_negative_flags(updated);

        if page_crossed {
            self.bus.tick(1);
        }
        Ok(())
    }

    /// AND: bitwise-ands the operand into the accumulator.
    fn and(&mut self, mode: &AddressingMode) -> (r: Result<(), EmuError>)
        requires
            old(self).wf(),
            *mode != AddressingMode::NoneAddressing,
        ensures
            final(self).wf(),
            old(self).bus.frame_pending ==> final(self).bus.frame_pending,
            spec_mem_unchanged(*old(self), *final(self)),
            r is Err ==> spec_regs_unchanged(*old(self), *final(self)),
            r is Ok ==> (final(self).program_counter == old(self).program_counter && final(self).register_x == old(self).register_x && final(self).register_y == old(self).register_y && final(self).stack_pointer == old(self).stack_pointer),
            old(self).spec_operand_pure(*mode) ==> ({
                let v = old(self).spec_operand_value(*mode);
                &&& r is Ok
                &&& final(self).register_a == (old(self).register_a & v)
                &&& final(self).status == spec_update_zn(old(self).status, (old(self).register_a & v))
                &&& final(self).bus == if old(self).spec_operand_crossed(*mode) {
                    crate::bus::spec_after_tick(old(self).bus, 1)
                } else {
                    old(self).bus
                }
            }),
    {
        let (addr, page_crossed) = match self.get_operand_address(mode) {
            Ok(t) => t,
            Err(e) => {
                return Err(e);
            },
        };
        let value = match self.mem_read(addr) {
            Ok(v) => v,
            Err(e) => {
                return Err(e);
            },
        };

        self.register_a = self.register_a & value;
        let updated = self.register_a;
        self.update_zero_and_negative_flags(updated);

        if page_crossed {
            self.bus.tick(1);
        }
        Ok(())
    }

    /// ORA: bitwise-ors the operand into the accumulator.
    fn ora(&mut self, mode: &AddressingMode) -> (r: Result<(), EmuError>)
        requires
            old(self).wf(),
            *mode != AddressingMode::NoneAddressing,
        ensures
            final(self).wf(),
            old(self).bus.frame_pending ==> final(self).bus.frame_pending,
            spec_mem_unchanged(*old(self), *final(self)),
            r is Err ==> spec_regs_unchanged(*old(self), *final(self)),
            r is Ok ==> (final(self).program_counter == old(self).program_counter && final(self).register_x == old(self).register_x && final(self).register_y == old(self).register_y && final(self).stack_pointer == old(self).stack_pointer),
            old(self).spec_operand_pure(*mode) ==> ({
                let v = old(self).spec_operand_value(*mode);
                &&& r is Ok
                &&& final(self).register_a == (old(self).register_a | v)
                &&& final(self).status == spec_update_zn(old(self).status, (old(self).register_a | v))
                &&& final(self).bus == if old(self).spec_operand_crossed(*mode) {
                    crate::bus::spec_after_tick(old(self).bus, 1)
                } else {
                    old(self).bus
                }
            }),
    {
        let (addr, page_crossed) = match self.get_operand_address(mode) {
            Ok(t) => t,
            Err(e) => {
                return Err(e);
            },
        };
        let value = match self.mem_read(addr) {
            Ok(v) => v,
            Err(e) => {
                return Err(e);
            },
        };

        self.register_a = self.register_a | value;
        let updated = self.register_a;
        self.update_zero_and_negative_flags(updated);

        if page_crossed {
            self.bus.tick(1);
        }
        Ok(())
    }

    /// EOR: bitwise-xors the operand into the accumulator.
    fn eor(&mut self, mode: &AddressingMode) -> (r: Result<(), EmuError>)
        requires
            old(self).wf(),
            *mode != AddressingMode::NoneAddressing,
        ensures
            final(self).wf(),
            old(self).bus.frame_pending ==> final(self).bus.frame_pending,
            spec_mem_unchanged(*old(self), *final(self)),
            r is Err ==> spec_regs_unchanged(*old(self), *final(self)),
            r is Ok ==> (final(self).program_counter == old(self).program_counter && final(self).register_x == old(self).register_x && final(self).register_y == old(self).register_y && final(self).stack_pointer == old(self).stack_pointer),
            old(self).spec_operand_pure(*mode) ==> ({
                let v = old(self).spec_operand_value(*mode);
                &&& r is Ok
                &&& final(self).register_a == (old(self).register_a ^ v)
                &&& final(self).status == spec_update_zn(old(self).status, (old(self).register_a ^ v))
                &&& final(self).bus == if old(self).spec_operand_crossed(*mode) {
                    crate::bus::spec_after_tick(old(self).bus, 1)
                } else {
                    old(self).bus
                }
            }),
    {
        let (addr, page_crossed) = match self.get_operand_address(mode) {
            Ok(t) => t,
            Err(e) => {
                return Err(e);
            },
        };
        let value = match self.mem_read(addr) {
            Ok(v) => v,
            Err(e) => {
                return Err(e);
            },
        };

        self.register_a = self.register_a ^ value;
        let updated = self.register_a;
        self.update_zero_and_negative_flags(updated);

        if page_crossed {
            self.bus.tick(1);
        }
        Ok(())
    }

    /// CMP: compares the accumulator with the operand.
    fn cmp(&mut self, mode: &AddressingMode) -> (r: Result<(), EmuError>)
        requires
            old(self).wf(),
            *mode != AddressingMode::NoneAddressing,
        ensures
            final(self).wf(),
            old(self).bus.frame_pending ==> final(self).bus.frame_pending,
            spec_mem_unchanged(*old(self), *final(self)),
            r is Err ==> spec_regs_unchanged(*old(self), *final(self)),
            r is Ok ==> (final(self).program_counter == old(self).program_counter && final(
                self).register_a == old(self).register_a && final(self).register_x == old(
                self).register_x && final(self).register_y == old(self).register_y && final(
                self).stack_pointer == old(self).stack_pointer),
            old(self).spec_operand_pure(*mode) ==> ({
                let v = old(self).spec_operand_value(*mode);
                &&& r is Ok
                &&& final(self).status == spec_compare_status(old(self).status, old(self).register_a, v)
                &&& final(self).bus == if old(self).spec_operand_crossed(*mode) {
                    crate::bus::spec_after_tick(old(self).bus, 1)
                } else {
                    old(self).bus
                }
            }),
    {
        let (addr, page_crossed) = match self.get_operand_address(mode) {
            Ok(t) => t,
            Err(e) => {
                return Err(e);
            },
        };
        let value = match self.mem_read(addr) {
            Ok(v) => v,
            Err(e) => {
                return Err(e);
            },
        };

        let check = self.register_a.wrapping_sub(value);
        if self.register_a >= value {
            self.sec();
        } else {
            self.clc();
        }
        self.update_zero_and_negative_flags(check);

        if page_crossed {
            self.bus.tick(1);
        }
        Ok(())
    }

    /// CPX: compares X with the operand.
    fn cpx(&mut self, mode: &AddressingMode) -> (r: Result<(), EmuError>)
        requires
            old(self).wf(),
            *mode != AddressingMode::NoneAddressing,
        ensures
            final(self).wf(),
            old(self).bus.frame_pending ==> final(self).bus.frame_pending,
            spec_mem_unchanged(*old(self), *final(self)),
            r is Err ==> spec_regs_unchanged(*old(self), *final(self)),
            r is Ok ==> (final(self).program_counter == old(self).program_counter && final(
                self).register_a == old(self).register_a && final(self).register_x == old(
                self).register_x && final(self).register_y == old(self).register_y && final(
                self).stack_pointer == old(self).stack_pointer),
            old(self).spec_operand_pure(*mode) ==> ({
                let v = old(self).spec_operand_value(*mode);
                &&& r is Ok
                &&& final(self).status == spec_compare_status(old(self).status, old(self).register_x, v)
                &&& final(self).bus == if old(self).spec_operand_crossed(*mode) {
                    crate::bus::spec_after_tick(old(self).bus, 1)
                } else {
                    old(self).bus
                }
            }),
    {
        let (addr, page_crossed) = match self.get_operand_address(mode) {
            Ok(t) => t,
            Err(e) => {
                return Err(e);
            },
        };
        let value = match self.mem_read(addr) {
            Ok(v) => v,
            Err(e) => {
                return Err(e);
            },
        };

        let check = self.register_x.wrapping_sub(value);
        if self.register_x >= value {
            self.sec();
        } else {
            self.clc();
        }
        self.update_zero_and_negative_flags(check);

        if page_crossed {
            self.bus.tick(1);
        }
        Ok(())
    }

    /// CPY: compares Y with the operand.
    fn cpy(&mut self, mode: &AddressingMode) -> (r: Result<(), EmuError>)
        requires
            old(self).wf(),
            *mode != AddressingMode::NoneAddressing,
        ensures
            final(self).wf(),
            old(self).bus.frame_pending ==> final(self).bus.frame_pending,
            spec_mem_unchanged(*old(self), *final(self)),
            r is Err ==> spec_regs_unchanged(*old(self), *final(self)),
            r is Ok ==> (final(self).program_counter == old(self).program_counter && final(
                self).register_a == old(self).register_a && final(self).register_x == old(
                self).register_x && final(self).register_y == old(self).register_y && final(
                self).stack_pointer == old(self).stack_pointer),
            old(self).spec_operand_pure(*mode) ==> ({
                let v = old(self).spec_operand_value(*mode);
                &&& r is Ok
                &&& final(self).status == spec_compare_status(old(self).status, old(self).register_y, v)
                &&& final(self).bus == if old(self).spec_operand_crossed(*mode) {
                    crate::bus::spec_after_tick(old(self).bus, 1)
                } else {
                    old(self).bus
                }
            }),
    {
        let (addr, page_crossed) = match self.get_operand_address(mode) {
            Ok(t) => t,
            Err(e) => {
                return Err(e);
            },
        };
        let value = match self.mem_read(addr) {
            Ok(v) => v,
            Err(e) => {
                return Err(e);
            },
        };

        let check = self.register_y.wrapping_sub(value);
        if self.register_y >= value {
            self.sec();
        } else {
            self.clc();
        }
        self.update_zero_and_negative_flags(check);

        if page_crossed {
            self.bus.tick(1);
        }
        Ok(())
    }

    /// STA: stores the accumulator at the operand address.
    fn sta(&mut self, mode: &AddressingMode) -> (r: Result<(), EmuError>)
        requires
            old(self).wf(),
            *mode != AddressingMode::NoneAddressing,
        ensures
            final(self).wf(),
            old(self).bus.frame_pending ==> final(self).bus.frame_pending,
            spec_regs_unchanged(*old(self), *final(self)),
            final(self).bus.prg_rom@ == old(self).bus.prg_rom@,
            old(self).spec_operand_reads_pure(*mode) ==> ({
                let target = old(self).spec_operand_address(*mode).0;
                &&& target < 0x2000 ==> (r is Ok && final(self).bus.cpu_vram@ == old(
                    self).bus.cpu_vram@.update((target % 0x800) as int, old(self).register_a) && final(
                    self).bus == (Bus { cpu_vram: final(self).bus.cpu_vram, ..old(self).bus }))
                &&& target >= 0x8000 ==> (r == Err::<(), EmuError>(EmuError::RomWrite(target))
                    && *final(self) == *old(self))
            }),
    {
        let (addr, _page_crossed) = match self.get_operand_address(mode) {
            Ok(t) => t,
            Err(e) => {
                return Err(e);
            },
        };
        let value = self.register_a;
        match self.mem_write(addr, value) {
            Ok(_) => Ok(()),
            Err(e) => Err(e),
        }
    }

    /// STX: stores X at the operand address.
    fn stx(&mut self, mode: &AddressingMode) -> (r: Result<(), EmuError>)
        requires
            old(self).wf(),
            *mode != AddressingMode::NoneAddressing,
        ensures
            final(self).wf(),
            old(self).bus.frame_pending ==> final(self).bus.frame_pending,
            spec_regs_unchanged(*old(self), *final(self)),
            final(self).bus.prg_rom@ == old(self).bus.prg_rom@,
            old(self).spec_operand_reads_pure(*mode) ==> ({
                let target = old(self).spec_operand_address(*mode).0;
                &&& target < 0x2000 ==> (r is Ok && final(self).bus.cpu_vram@ == old(
                    self).bus.cpu_vram@.update((target % 0x800) as int, old(self).register_x) && final(
                    self).bus == (Bus { cpu_vram: final(self).bus.cpu_vram, ..old(self).bus }))
                &&& target >= 0x8000 ==> (r == Err::<(), EmuError>(EmuError::RomWrite(target))
                    && *final(self) == *old(self))
            }),
    {
        let (addr, _page_crossed) = match self.get_operand_address(mode) {
            Ok(t) => t,
            Err(e) => {
                return Err(e);
            },
        };
        let value = self.register_x;
        match self.mem_write(addr, value) {
            Ok(_) => Ok(()),
            Err(e) => Err(e),
        }
    }

    /// STY: stores Y at the operand address.
    fn sty(&mut self, mode: &AddressingMode) -> (r: Result<(), EmuError>)
        requires
            old(self).wf(),
            *mode != AddressingMode::NoneAddressing,
        ensures
            final(self).wf(),
            old(self).bus.frame_pending ==> final(self).bus.frame_pending,
            spec_regs_unchanged(*old(self), *final(self)),
            final(self).bus.prg_rom@ == old(self).bus.prg_rom@,
            old(self).spec_operand_reads_pure(*mode) ==> ({
                let target = old(self).spec_operand_address(*mode).0;
                &&& target < 0x2000 ==> (r is Ok && final(self).bus.cpu_vram@ == old(
                    self).bus.cpu_vram@.update((target % 0x800) as int, old(self).register_y) && final(
                    self).bus == (Bus { cpu_vram: final(self).bus.cpu_vram, ..old(self).bus }))
                &&& target >= 0x8000 ==> (r == Err::<(), EmuError>(EmuError::RomWrite(target))
                    && *final(self) == *old(self))
            }),
    {
        let (addr, _page_crossed) = match self.get_operand_address(mode) {
            Ok(t) => t,
            Err(e) => {
                return Err(e);
            },
        };
        let value = self.register_y;
        match self.mem_write(addr, value) {
            Ok(_) => Ok(()),
            Err(e) => Err(e),
        }
    }

    /// INC: adds one to the byte at the operand address, wrapping.
    fn inc(&mut self, mode: &AddressingMode) -> (r: Result<(), EmuError>)
        requires
            old(self).wf(),
            *mode != AddressingMode::NoneAddressing,
        ensures
            final(self).wf(),
            old(self).bus.frame_pending ==> final(self).bus.frame_pending,
            final(self).bus.prg_rom@ == old(self).bus.prg_rom@,
            r is Err ==> spec_regs_unchanged(*old(self), *final(self)),
            r is Ok ==> (final(self).program_counter == old(self).program_counter && final(
                self).register_a == old(self).register_a && final(self).register_x == old(
                self).register_x && final(self).register_y == old(self).register_y && final(
                self).stack_pointer == old(self).stack_pointer),
            (old(self).spec_operand_pure(*mode) && old(self).spec_operand_address(*mode).0
                < 0x2000) ==> ({
                let target = old(self).spec_operand_address(*mode).0;
                let v = old(self).spec_operand_value(*mode);
                let nv = v.wrapping_add(1);
                &&& r is Ok
                &&& final(self).bus.cpu_vram@ == old(self).bus.cpu_vram@.update(
                    (target % 0x800) as int,
                    nv,
                )
                &&& final(self).status == spec_update_zn(old(self).status, nv)
                &&& final(self).bus == (Bus { cpu_vram: final(self).bus.cpu_vram, ..old(self).bus })
            }),
    {
        let (addr, _page_crossed) = match self.get_operand_address(mode) {
            Ok(t) => t,
            Err(e) => {
                return Err(e);
            },
        };
        let mut value = match self.mem_read(addr) {
            Ok(v) => v,
            Err(e) => {
                return Err(e);
            },
        };

        if value == 0xff {
            value = 0;
        } else {
            value += 1;
        }
        match self.mem_write(addr, value) {
            Ok(_) => {},
            Err(e) => {
                return Err(e);
            },
        }

        self.update_zero_and_negative_flags(value);
        Ok(())
    }

    /// DEC: subtracts one from the byte at the operand address, wrapping.
    fn dec(&mut self, mode: &AddressingMode) -> (r: Result<(), EmuError>)
        requires
            old(self).wf(),
            *mode != AddressingMode::NoneAddressing,
        ensures
            final(self).wf(),
            old(self).bus.frame_pending ==> final(self).bus.frame_pending,
            final(self).bus.prg_rom@ == old(self).bus.prg_rom@,
            r is Err ==> spec_regs_unchanged(*old(self), *final(self)),
            r is Ok ==> (final(self).program_counter == old(self).program_counter && final(
                self).register_a == old(self).register_a && final(self).register_x == old(
                self).register_x && final(self).register_y == old(self).register_y && final(
                self).stack_pointer == old(self).stack_pointer),
            (old(self).spec_operand_pure(*mode) && old(self).spec_operand_address(*mode).0
                < 0x2000) ==> ({
                let target = old(self).spec_operand_address(*mode).0;
                let v = old(self).spec_operand_value(*mode);
                let nv = v.wrapping_sub(1);
                &&& r is Ok
                &&& final(self).bus.cpu_vram@ == old(self).bus.cpu_vram@.update(
                    (target % 0x800) as int,
                    nv,
                )
                &&& final(self).status == spec_update_zn(old(self).status, nv)
                &&& final(self).bus == (Bus { cpu_vram: final(self).bus.cpu_vram, ..old(self).bus })
            }),
    {
        let (addr, _page_crossed) = match self.get_operand_address(mode) {
            Ok(t) => t,
            Err(e) => {
                return Err(e);
            },
        };
        let mut value = match self.mem_read(addr) {
            Ok(v) => v,
            Err(e) => {
                return Err(e);
            },
        };

        if value == 0 {
            value = 0xff;
        } else {
            value -= 1;
        }
        match self.mem_write(addr, value) {
            Ok(_) => {},
            Err(e) => {
                return Err(e);
            },
        }

        self.update_zero_and_negative_flags(value);
        Ok(())
    }

    /// BIT: Z from the accumulator masked with the operand, V and N copied
    /// from operand bits 6 and 7.
    fn bit(&mut self, mode: &AddressingMode) -> (r: Result<(), EmuError>)
        requires
            old(self).wf(),
            *mode != AddressingMode::NoneAddressing,
        ensures
            final(self).wf(),
            old(self).bus.frame_pending ==> final(self).bus.frame_pending,
            spec_mem_unchanged(*old(self), *final(self)),
            r is Err ==> spec_regs_unchanged(*old(self), *final(self)),
            r is Ok ==> (final(self).program_counter == old(self).program_counter && final(
                self).register_a == old(self).register_a && final(self).register_x == old(
                self).register_x && final(self).register_y == old(self).register_y && final(
                self).stack_pointer == old(self).stack_pointer),
            old(self).spec_operand_pure(*mode) ==> ({
                let v = old(self).spec_operand_value(*mode);
                &&& r is Ok
                &&& final(self).status == spec_bit_status(old(self).status, old(self).register_a, v)
                &&& final(self).bus == old(self).bus
            }),
    {
        let (addr, _page_crossed) = match self.get_operand_address(mode) {
            Ok(t) => t,
            Err(e) => {
                return Err(e);
            },
        };
        let value = match self.mem_read(addr) {
            Ok(v) => v,
            Err(e) => {
                return Err(e);
            },
        };

        if (self.register_a & value) == 0 {
            self.status = self.status | 0b0000_0010;
        } else {
            self.status = self.status & 0b1111_1101;
        }

        if (value & 0b0100_0000) == 0b0100_0000 {
            self.status = self.status | 0b0100_0000;
        } else {
            self.status = self.status & 0b1011_1111;
        }

        if (value & 0b1000_0000) == 0b1000_0000 {
            self.status = self.status | 0b1000_0000;
        } else {
            self.status = self.status & 0b0111_1111;
        }

        self.status = self.status | (value & 0b1100_0000);
        Ok(())
    }

    /// ASL: shift left; C takes the old bit 7.
    fn asl(&mut self, mode: &AddressingMode) -> (r: Result<(), EmuError>)
        requires
            old(self).wf(),
        ensures
            final(self).wf(),
            old(self).bus.frame_pending ==> final(self).bus.frame_pending,
            final(self).bus.prg_rom@ == old(self).bus.prg_rom@,
            final(self).program_counter == old(self).program_counter,
            final(self).register_x == old(self).register_x,
            final(self).register_y == old(self).register_y,
            final(self).stack_pointer == old(self).stack_pointer,
            r is Err ==> final(self).register_a == old(self).register_a,
            *mode == AddressingMode::NoneAddressing ==> (r is Ok && *final(self) == (CPU {
                register_a: old(self).register_a << 1u8,
                status: spec_carry_zn(old(self).status, old(self).register_a & 0b1000_0000 != 0, old(self).register_a << 1u8),
                ..*old(self)
            })),
            (*mode != AddressingMode::NoneAddressing && *mode != AddressingMode::Immediate && old(
                self).spec_operand_pure(*mode) && old(self).spec_operand_address(*mode).0 < 0x2000)
                ==> ({
                let target = old(self).spec_operand_address(*mode).0;
                let v = old(self).spec_operand_value(*mode);
                &&& r is Ok
                &&& final(self).register_a == old(self).register_a
                &&& final(self).bus.cpu_vram@ == old(self).bus.cpu_vram@.update(
                    (target % 0x800) as int,
                    v << 1u8,
                )
                &&& final(self).status == spec_carry_zn(old(self).status, v & 0b1000_0000 != 0, v << 1u8)
                &&& final(self).bus == (Bus { cpu_vram: final(self).bus.cpu_vram, ..old(self).bus })
            }),
    {
        match mode {
            AddressingMode::NoneAddressing => {
                let value = self.register_a;
                if value & 0b1000_0000 != 0 {
                    self.sec();
                } else {
                    self.clc();
                }
                self.register_a = value << 1u8;
                let updated = self.register_a;
                self.update_zero_and_negative_flags(updated);
                Ok(())
            },
            _ => {
                let (addr, _page_crossed) = match self.get_operand_address(mode) {
                    Ok(t) => t,
                    Err(e) => {
                        return Err(e);
                    },
                };
                let value = match self.mem_read(addr) {
                    Ok(v) => v,
                    Err(e) => {
                        return Err(e);
                    },
                };
                if value & 0b1000_0000 != 0 {
                    self.sec();
                } else {
                    self.clc();
                }
                let shifted = value << 1u8;
                match self.mem_write(addr, shifted) {
                    Ok(_) => {},
                    Err(e) => {
                        return Err(e);
                    },
                }
                self.update_zero_and_negative_flags(shifted);
                Ok(())
            },
        }
    }

    /// LSR: shift right; C takes the old bit 0.
    fn lsr(&mut self, mode: &AddressingMode) -> (r: Result<(), EmuError>)
        requires
            old(self).wf(),
        ensures
            final(self).wf(),
            old(self).bus.frame_pending ==> final(self).bus.frame_pending,
            final(self).bus.prg_rom@ == old(self).bus.prg_rom@,
            final(self).program_counter == old(self).program_counter,
            final(self).register_x == old(self).register_x,
            final(self).register_y == old(self).register_y,
            final(self).stack_pointer == old(self).stack_pointer,
            r is Err ==> final(self).register_a == old(self).register_a,
            *mode == AddressingMode::NoneAddressing ==> (r is Ok && *final(self) == (CPU {
                register_a: old(self).register_a >> 1u8,
                status: spec_carry_zn(old(self).status, old(self).register_a & 0b0000_0001 != 0, old(self).register_a >> 1u8),
                ..*old(self)
            })),
            (*mode != AddressingMode::NoneAddressing && *mode != AddressingMode::Immediate && old(
                self).spec_operand_pure(*mode) && old(self).spec_operand_address(*mode).0 < 0x2000)
                ==> ({
                let target = old(self).spec_operand_address(*mode).0;
                let v = old(self).spec_operand_value(*mode);
                &&& r is Ok
                &&& final(self).register_a == old(self).register_a
                &&& final(self).bus.cpu_vram@ == old(self).bus.cpu_vram@.update(
                    (target % 0x800) as int,
                    v >> 1u8,
                )
                &&& final(self).status == spec_carry_zn(old(self).status, v & 0b0000_0001 != 0, v >> 1u8)
                &&& final(self).bus == (Bus { cpu_vram: final(self).bus.cpu_vram, ..old(self).bus })
            }),
    {
        match mode {
            AddressingMode::NoneAddressing => {
                let value = self.register_a;
                if value & 0b0000_0001 != 0 {
                    self.sec();
                } else {
                    self.clc();
                }
                self.register_a = value >> 1u8;
                let updated = self.register_a;
                self.update_zero_and_negative_flags(updated);
                Ok(())
            },
            _ => {
                let (addr, _page_crossed) = match self.get_operand_address(mode) {
                    Ok(t) => t,
                    Err(e) => {
                        return Err(e);
                    },
                };
                let value = match self.mem_read(addr) {
                    Ok(v) => v,
                    Err(e) => {
                        return Err(e);
                    },
                };
                if value & 0b0000_0001 != 0 {
                    self.sec();
                } else {
                    self.clc();
                }
                let shifted = value >> 1u8;
                match self.mem_write(addr, shifted) {
                    Ok(_) => {},
                    Err(e) => {
                        return Err(e);
                    },
                }
                self.update_zero_and_negative_flags(shifted);
                Ok(())
            },
        }
    }

    /// ROL: rotate left through the carry flag.
    fn rol(&mut self, mode: &AddressingMode) -> (r: Result<(), EmuError>)
        requires
            old(self).wf(),
        ensures
            final(self).wf(),
            old(self).bus.frame_pending ==> final(self).bus.frame_pending,
            final(self).bus.prg_rom@ == old(self).bus.prg_rom@,
            final(self).program_counter == old(self).program_counter,
            final(self).register_x == old(self).register_x,
            final(self).register_y == old(self).register_y,
            final(self).stack_pointer == old(self).stack_pointer,
            r is Err ==> final(self).register_a == old(self).register_a,
            *mode == AddressingMode::NoneAddressing ==> (r is Ok && *final(self) == (CPU {
                register_a: (old(self).register_a << 1u8) | (old(self).status & 0b0000_0001),
                status: spec_carry_zn(old(self).status, old(self).register_a & 0b1000_0000 != 0, (old(self).register_a << 1u8) | (old(self).status & 0b0000_0001)),
                ..*old(self)
            })),
            (*mode != AddressingMode::NoneAddressing && *mode != AddressingMode::Immediate && old(
                self).spec_operand_pure(*mode) && old(self).spec_operand_address(*mode).0 < 0x2000)
                ==> ({
                let target = old(self).spec_operand_address(*mode).0;
                let v = old(self).spec_operand_value(*mode);
                &&& r is Ok
                &&& final(self).register_a == old(self).register_a
                &&& final(self).bus.cpu_vram@ == old(self).bus.cpu_vram@.update(
                    (target % 0x800) as int,
                    (v << 1u8) | (old(self).status & 0b0000_0001),
                )
                &&& final(self).status == spec_carry_zn(old(self).status, v & 0b1000_0000 != 0, (v << 1u8) | (old(self).status & 0b0000_0001))
                &&& final(self).bus == (Bus { cpu_vram: final(self).bus.cpu_vram, ..old(self).bus })
            }),
    {
        match mode {
            AddressingMode::NoneAddressing => {
                let original_carry_flag = self.status & 0b0000_0001;
                let value = self.register_a;
                if value & 0b1000_0000 != 0 {
                    self.sec();
                } else {
                    self.clc();
                }
                self.register_a = (value << 1u8) | original_carry_flag;
                let updated = self.register_a;
                self.update_zero_and_negative_flags(updated);
                Ok(())
            },
            _ => {
                let (addr, _page_crossed) = match self.get_operand_address(mode) {
                    Ok(t) => t,
                    Err(e) => {
                        return Err(e);
                    },
                };
                let value = match self.mem_read(addr) {
                    Ok(v) => v,
                    Err(e) => {
                        return Err(e);
                    },
                };
                let original_carry_flag = self.status & 0b0000_0001;
                if value & 0b1000_0000 != 0 {
                    self.sec();
                } else {
                    self.clc();
                }
                let shifted = (value << 1u8) | original_carry_flag;
                match self.mem_write(addr, shifted) {
                    Ok(_) => {},
                    Err(e) => {
                        return Err(e);
                    },
                }
                self.update_zero_and_negative_flags(shifted);
                Ok(())
            },
        }
    }

    /// ROR: rotate right through the carry flag.
    fn ror(&mut self, mode: &AddressingMode) -> (r: Result<(), EmuError>)
        requires
            old(self).wf(),
        ensures
            final(self).wf(),
            old(self).bus.frame_pending ==> final(self).bus.frame_pending,
            final(self).bus.prg_rom@ == old(self).bus.prg_rom@,
            final(self).program_counter == old(self).program_counter,
            final(self).register_x == old(self).register_x,
            final(self).register_y == old(self).register_y,
            final(self).stack_pointer == old(self).stack_pointer,
            r is Err ==> final(self).register_a == old(self).register_a,
            *mode == AddressingMode::NoneAddressing ==> (r is Ok && *final(self) == (CPU {
                register_a: (old(self).register_a >> 1u8) | (if old(self).status & 0b0000_0001 == 1 {
                    0b1000_0000u8
                } else {
                    0u8
                }),
                status: spec_carry_zn(old(self).status, old(self).register_a & 0b0000_0001 != 0, (old(self).register_a >> 1u8) | (if old(self).status & 0b0000_0001 == 1 {
                    0b1000_0000u8
                } else {
                    0u8
                })),
                ..*old(self)
            })),
            (*mode != AddressingMode::NoneAddressing && *mode != AddressingMode::Immediate && old(
                self).spec_operand_pure(*mode) && old(self).spec_operand_address(*mode).0 < 0x2000)
                ==> ({
                let target = old(self).spec_operand_address(*mode).0;
                let v = old(self).spec_operand_value(*mode);
                &&& r is Ok
                &&& final(self).register_a == old(self).register_a
                &&& final(self).bus.cpu_vram@ == old(self).bus.cpu_vram@.update(
                    (target % 0x800) as int,
                    (v >> 1u8) | (if old(self).status & 0b0000_0001 == 1 {
                    0b1000_0000u8
                } else {
                    0u8
                }),
                )
                &&& final(self).status == spec_carry_zn(old(self).status, v & 0b0000_0001 != 0, (v >> 1u8) | (if old(self).status & 0b0000_0001 == 1 {
                    0b1000_0000u8
                } else {
                    0u8
                }))
                &&& final(self).bus == (Bus { cpu_vram: final(self).bus.cpu_vram, ..old(self).bus })
            }),
    {
        match mode {
            AddressingMode::NoneAddressing => {
                let original_carry_flag = self.status & 0b0000_0001;
                let value = self.register_a;
                if value & 0b0000_0001 != 0 {
                    self.sec();
                } else {
                    self.clc();
                }
                self.register_a = (value >> 1u8) | (if original_carry_flag == 1 {
                    0b1000_0000
                } else {
                    0
                });
                let updated = self.register_a;
                self.update_zero_and_negative_flags(updated);
                Ok(())
            },
            _ => {
                let (addr, _page_crossed) = match self.get_operand_address(mode) {
                    Ok(t) => t,
                    Err(e) => {
                        return Err(e);
                    },
                };
                let value = match self.mem_read(addr) {
                    Ok(v) => v,
                    Err(e) => {
                        return Err(e);
                    },
                };
                let original_carry_flag = self.status & 0b0000_0001;
                if value & 0b0000_0001 != 0 {
                    self.sec();
                } else {
                    self.clc();
                }
                let shifted = (value >> 1u8) | (if original_carry_flag == 1 {
                    0b1000_0000
                } else {
                    0
                });
                match self.mem_write(addr, shifted) {
                    Ok(_) => {},
                    Err(e) => {
                        return Err(e);
                    },
                }
                self.update_zero_and_negative_flags(shifted);
                Ok(())
            },
        }
    }

    /// Shared body of the eight relative branches: when the condition holds,
    /// one extra cycle is charged, the signed offset at PC is applied, and a
    /// page crossing charges one more cycle.
    fn branch_on(&mut self, condition: bool) -> (r: Result<(), EmuError>)
        requires
            old(self).wf(),
        ensures
            final(self).wf(),
            old(self).bus.frame_pending ==> final(self).bus.frame_pending,
            spec_mem_unchanged(*old(self), *final(self)),
            final(self).register_a == old(self).register_a,
            final(self).register_x == old(self).register_x,
            final(self).register_y == old(self).register_y,
            final(self).stack_pointer == old(self).stack_pointer,
            final(self).status == old(self).status,
            !condition ==> (r is Ok && *final(self) == *old(self)),
            r is Err ==> final(self).program_counter == old(self).program_counter,
            (condition && spec_pure_readable(old(self).program_counter)) ==> ({
                let off = old(self).bus.spec_pure_read(old(self).program_counter);
                let target = spec_branch_target(old(self).program_counter, off);
                &&& r is Ok
                &&& final(self).program_counter == target
                &&& final(self).bus == if spec_page_cross(old(self).program_counter, target) {
                    crate::bus::spec_after_tick(crate::bus::spec_after_tick(old(self).bus, 1), 1)
                } else {
                    crate::bus::spec_after_tick(old(self).bus, 1)
                }
            }),
    {
        if condition {
            self.bus.tick(1);

            let value = match self.mem_read(self.program_counter) {
                Ok(v) => v,
                Err(e) => {
                    return Err(e);
                },
            };
            let old_pc = self.program_counter;

            let base = self.program_counter.wrapping_add(1).wrapping_add(value as u16);
            self.program_counter = if value >= 0x80 {
                base.wrapping_add(0xff00)
            } else {
                base
            };

            if page_cross(old_pc, self.program_counter) {
                self.bus.tick(1);
            }
        }
        Ok(())
    }

    /// BNE: branch when the zero flag is clear.
    fn bne(&mut self) -> (r: Result<(), EmuError>)
        requires
            old(self).wf(),
        ensures
            final(self).wf(),
            old(self).bus.frame_pending ==> final(self).bus.frame_pending,
            spec_mem_unchanged(*old(self), *final(self)),
            final(self).register_a == old(self).register_a,
            final(self).register_x == old(self).register_x,
            final(self).register_y == old(self).register_y,
            final(self).stack_pointer == old(self).stack_pointer,
            final(self).status == old(self).status,
            !(!flag_z(old(self).status)) ==> (r is Ok && *final(self) == *old(self)),
            r is Err ==> final(self).program_counter == old(self).program_counter,
            (!flag_z(old(self).status) && spec_pure_readable(old(self).program_counter)) ==> ({
                let off = old(self).bus.spec_pure_read(old(self).program_counter);
                let target = spec_branch_target(old(self).program_counter, off);
                &&& r is Ok
                &&& final(self).program_counter == target
                &&& final(self).bus == if spec_page_cross(old(self).program_counter, target) {
                    crate::bus::spec_after_tick(crate::bus::spec_after_tick(old(self).bus, 1), 1)
                } else {
                    crate::bus::spec_after_tick(old(self).bus, 1)
                }
            }),
    {
        proof {
            lemma_single_bit_test(self.status);
        }
        let condition = self.status & 0b0000_0010 == 0;
        self.branch_on(condition)
    }

    /// BEQ: branch when the zero flag is set.
    fn beq(&mut self) -> (r: Result<(), EmuError>)
        requires
            old(self).wf(),
        ensures
            final(self).wf(),
            old(self).bus.frame_pending ==> final(self).bus.frame_pending,
            spec_mem_unchanged(*old(self), *final(self)),
            final(self).register_a == old(self).register_a,
            final(self).register_x == old(self).register_x,
            final(self).register_y == old(self).register_y,
            final(self).stack_pointer == old(self).stack_pointer,
            final(self).status == old(self).status,
            !(flag_z(old(self).status)) ==> (r is Ok && *final(self) == *old(self)),
            r is Err ==> final(self).program_counter == old(self).program_counter,
            (flag_z(old(self).status) && spec_pure_readable(old(self).program_counter)) ==> ({
                let off = old(self).bus.spec_pure_read(old(self).program_counter);
                let target = spec_branch_target(old(self).program_counter, off);
                &&& r is Ok
                &&& final(self).program_counter == target
                &&& final(self).bus == if spec_page_cross(old(self).program_counter, target) {
                    crate::bus::spec_after_tick(crate::bus::spec_after_tick(old(self).bus, 1), 1)
                } else {
                    crate::bus::spec_after_tick(old(self).bus, 1)
                }
            }),
    {
        proof {
            lemma_single_bit_test(self.status);
        }
        let condition = self.status & 0b0000_0010 == 0b0000_0010;
        self.branch_on(condition)
    }

    /// BCC: branch when the carry flag is clear.
    fn bcc(&mut self) -> (r: Result<(), EmuError>)
        requires
            old(self).wf(),
        ensures
            final(self).wf(),
            old(self).bus.frame_pending ==> final(self).bus.frame_pending,
            spec_mem_unchanged(*old(self), *final(self)),
            final(self).register_a == old(self).register_a,
            final(self).register_x == old(self).register_x,
            final(self).register_y == old(self).register_y,
            final(self).stack_pointer == old(self).stack_pointer,
            final(self).status == old(self).status,
            !(!flag_c(old(self).status)) ==> (r is Ok && *final(self) == *old(self)),
            r is Err ==> final(self).program_counter == old(self).program_counter,
            (!flag_c(old(self).status) && spec_pure_readable(old(self).program_counter)) ==> ({
                let off = old(self).bus.spec_pure_read(old(self).program_counter);
                let target = spec_branch_target(old(self).program_counter, off);
                &&& r is Ok
                &&& final(self).program_counter == target
                &&& final(self).bus == if spec_page_cross(old(self).program_counter, target) {
                    crate::bus::spec_after_tick(crate::bus::spec_after_tick(old(self).bus, 1), 1)
                } else {
                    crate::bus::spec_after_tick(old(self).bus, 1)
                }
            }),
    {
        proof {
            lemma_single_bit_test(self.status);
        }
        let condition = self.status & 0b0000_0001 == 0;
        self.branch_on(condition)
    }

    /// BCS: branch when the carry flag is set.
    fn bcs(&mut self) -> (r: Result<(), EmuError>)
        requires
            old(self).wf(),
        ensures
            final(self).wf(),
            old(self).bus.frame_pending ==> final(self).bus.frame_pending,
            spec_mem_unchanged(*old(self), *final(self)),
            final(self).register_a == old(self).register_a,
            final(self).register_x == old(self).register_x,
            final(self).register_y == old(self).register_y,
            final(self).stack_pointer == old(self).stack_pointer,
            final(self).status == old(self).status,
            !(flag_c(old(self).status)) ==> (r is Ok && *final(self) == *old(self)),
            r is Err ==> final(self).program_counter == old(self).program_counter,
            (flag_c(old(self).status) && spec_pure_readable(old(self).program_counter)) ==> ({
                let off = old(self).bus.spec_pure_read(old(self).program_counter);
                let target = spec_branch_target(old(self).program_counter, off);
                &&& r is Ok
                &&& final(self).program_counter == target
                &&& final(self).bus == if spec_page_cross(old(self).program_counter, target) {
                    crate::bus::spec_after_tick(crate::bus::spec_after_tick(old(self).bus, 1), 1)
                } else {
                    crate::bus::spec_after_tick(old(self).bus, 1)
                }
            }),
    {
        proof {
            lemma_single_bit_test(self.status);
        }
        let condition = self.status & 0b0000_0001 == 0b0000_0001;
        self.branch_on(condition)
    }

    /// BMI: branch when the negative flag is set.
    fn bmi(&mut self) -> (r: Result<(), EmuError>)
        requires
            old(self).wf(),
        ensures
            final(self).wf(),
            old(self).bus.frame_pending ==> final(self).bus.frame_pending,
            spec_mem_unchanged(*old(self), *final(self)),
            final(self).register_a == old(self).register_a,
            final(self).register_x == old(self).register_x,
            final(self).register_y == old(self).register_y,
            final(self).stack_pointer == old(self).stack_pointer,
            final(self).status == old(self).status,
            !(flag_n(old(self).status)) ==> (r is Ok && *final(self) == *old(self)),
            r is Err ==> final(self).program_counter == old(self).program_counter,
            (flag_n(old(self).status) && spec_pure_readable(old(self).program_counter)) ==> ({
                let off = old(self).bus.spec_pure_read(old(self).program_counter);
                let target = spec_branch_target(old(self).program_counter, off);
                &&& r is Ok
                &&& final(self).program_counter == target
                &&& final(self).bus == if spec_page_cross(old(self).program_counter, target) {
                    crate::bus::spec_after_tick(crate::bus::spec_after_tick(old(self).bus, 1), 1)
                } else {
                    crate::bus::spec_after_tick(old(self).bus, 1)
                }
            }),
    {
        proof {
            lemma_single_bit_test(self.status);
        }
        let condition = self.status & 0b1000_0000 == 0b1000_0000;
        self.branch_on(condition)
    }

    /// BPL: branch when the negative flag is clear.
    fn bpl(&mut self) -> (r: Result<(), EmuError>)
        requires
            old(self).wf(),
        ensures
            final(self).wf(),
            old(self).bus.frame_pending ==> final(self).bus.frame_pending,
            spec_mem_unchanged(*old(self), *final(self)),
            final(self).register_a == old(self).register_a,
            final(self).register_x == old(self).register_x,
            final(self).register_y == old(self).register_y,
            final(self).stack_pointer == old(self).stack_pointer,
            final(self).status == old(self).status,
            !(!flag_n(old(self).status)) ==> (r is Ok && *final(self) == *old(self)),
            r is Err ==> final(self).program_counter == old(self).program_counter,
            (!flag_n(old(self).status) && spec_pure_readable(old(self).program_counter)) ==> ({
                let off = old(self).bus.spec_pure_read(old(self).program_counter);
                let target = spec_branch_target(old(self).program_counter, off);
                &&& r is Ok
                &&& final(self).program_counter == target
                &&& final(self).bus == if spec_page_cross(old(self).program_counter, target) {
                    crate::bus::spec_after_tick(crate::bus::spec_after_tick(old(self).bus, 1), 1)
                } else {
                    crate::bus::spec_after_tick(old(self).bus, 1)
                }
            }),
    {
        proof {
            lemma_single_bit_test(self.status);
        }
        let condition = self.status & 0b1000_0000 == 0;
        self.branch_on(condition)
    }

    /// BVC: branch when the overflow flag is clear.
    fn bvc(&mut self) -> (r: Result<(), EmuError>)
        requires
            old(self).wf(),
        ensures
            final(self).wf(),
            old(self).bus.frame_pending ==> final(self).bus.frame_pending,
            spec_mem_unchanged(*old(self), *final(self)),
            final(self).register_a == old(self).register_a,
            final(self).register_x == old(self).register_x,
            final(self).register_y == old(self).register_y,
            final(self).stack_pointer == old(self).stack_pointer,
            final(self).status == old(self).status,
            !(!flag_v(old(self).status)) ==> (r is Ok && *final(self) == *old(self)),
            r is Err ==> final(self).program_counter == old(self).program_counter,
            (!flag_v(old(self).status) && spec_pure_readable(old(self).program_counter)) ==> ({
                let off = old(self).bus.spec_pure_read(old(self).program_counter);
                let target = spec_branch_target(old(self).program_counter, off);
                &&& r is Ok
                &&& final(self).program_counter == target
                &&& final(self).bus == if spec_page_cross(old(self).program_counter, target) {
                    crate::bus::spec_after_tick(crate::bus::spec_after_tick(old(self).bus, 1), 1)
                } else {
                    crate::bus::spec_after_tick(old(self).bus, 1)
                }
            }),
    {
        proof {
            lemma_single_bit_test(self.status);
        }
        let condition = self.status & 0b0100_0000 == 0;
        self.branch_on(condition)
    }

    /// BVS: branch when the overflow flag is set.
    fn bvs(&mut self) -> (r: Result<(), EmuError>)
        requires
            old(self).wf(),
        ensures
            final(self).wf(),
            old(self).bus.frame_pending ==> final(self).bus.frame_pending,
            spec_mem_unchanged(*old(self), *final(self)),
            final(self).register_a == old(self).register_a,
            final(self).register_x == old(self).register_x,
            final(self).register_y == old(self).register_y,
            final(self).stack_pointer == old(self).stack_pointer,
            final(self).status == old(self).status,
            !(flag_v(old(self).status)) ==> (r is Ok && *final(self) == *old(self)),
            r is Err ==> final(self).program_counter == old(self).program_counter,
            (flag_v(old(self).status) && spec_pure_readable(old(self).program_counter)) ==> ({
                let off = old(self).bus.spec_pure_read(old(self).program_counter);
                let target = spec_branch_target(old(self).program_counter, off);
                &&& r is Ok
                &&& final(self).program_counter == target
                &&& final(self).bus == if spec_page_cross(old(self).program_counter, target) {
                    crate::bus::spec_after_tick(crate::bus::spec_after_tick(old(self).bus, 1), 1)
                } else {
                    crate::bus::spec_after_tick(old(self).bus, 1)
                }
            }),
    {
        proof {
            lemma_single_bit_test(self.status);
        }
        let condition = self.status & 0b0100_0000 == 0b0100_0000;
        self.branch_on(condition)
    }

    /// JMP: absolute mode loads PC from the operand; the indirect form
    /// follows the pointer, reading the high byte from the start of the same
    /// page when the pointer sits at a page boundary (the documented 6502
    /// defect).
    fn jmp(&mut self, mode: &AddressingMode) -> (r: Result<(), EmuError>)
        requires
            old(self).wf(),
            *mode == AddressingMode::Absolute || *mode == AddressingMode::NoneAddressing,
        ensures
            final(self).wf(),
            old(self).bus.frame_pending ==> final(self).bus.frame_pending,
            spec_mem_unchanged(*old(self), *final(self)),
            final(self).register_a == old(self).register_a,
            final(self).register_x == old(self).register_x,
            final(self).register_y == old(self).register_y,
            final(self).stack_pointer == old(self).stack_pointer,
            final(self).status == old(self).status,
            r is Err ==> final(self).program_counter == old(self).program_counter,
            (*mode == AddressingMode::Absolute && old(self).spec_absolute_reads_pure(
                AddressingMode::Absolute,
                old(self).program_counter,
            )) ==> (r is Ok && final(self).program_counter == old(self).bus.spec_pure_read_u16(
                old(self).program_counter,
            ) && final(self).bus == old(self).bus),
            (*mode == AddressingMode::NoneAddressing && old(self).spec_jmp_indirect_pure()) ==> (
            r is Ok && final(self).program_counter == old(self).spec_jmp_indirect_target()
                && final(self).bus == old(self).bus),
    {
        match mode {
            AddressingMode::NoneAddressing => {
                let addr = match self.mem_read_u16(self.program_counter) {
                    Ok(v) => v,
                    Err(e) => {
                        return Err(e);
                    },
                };

                let mut indirect_ref = match self.mem_read_u16(addr) {
                    Ok(v) => v,
                    Err(e) => {
                        return Err(e);
                    },
                };
                if (addr & 0x00ff) == 0x00ff {
                    let lo = match self.mem_read(addr) {
                        Ok(v) => v,
                        Err(e) => {
                            return Err(e);
                        },
                    };
                    let hi = match self.mem_read(addr & 0xff00) {
                        Ok(v) => v,
                        Err(e) => {
                            return Err(e);
                        },
                    };
                    indirect_ref = (hi as u16) * 256 + (lo as u16);
                }

                self.program_counter = indirect_ref;
                Ok(())
            },
            _ => {
                let (addr, _page_crossed) = match self.get_operand_address(mode) {
                    Ok(t) => t,
                    Err(e) => {
                        return Err(e);
                    },
                };
                self.program_counter = addr;
                Ok(())
            },
        }
    }

    /// PHA: pushes the accumulator.
    fn pha(&mut self)
        requires
            old(self).wf(),
        ensures
            final(self).wf(),
            old(self).bus.frame_pending ==> final(self).bus.frame_pending,
            final(self).bus.cpu_vram@ == old(self).bus.cpu_vram@.update(
                0x100 + old(self).stack_pointer as int,
                old(self).register_a,
            ),
            *final(self) == (CPU {
                stack_pointer: old(self).stack_pointer.wrapping_sub(1),
                bus: Bus { cpu_vram: final(self).bus.cpu_vram, ..old(self).bus },
                ..*old(self)
            }),
    {
        let copy = self.register_a;
        let addr = 0x0100 + (self.stack_pointer as u16);
        match self.mem_write(addr, copy) {
            Ok(_) => {},
            Err(_) => {
                proof {
                    assert(false);
                }
            },
        }
        self.stack_pointer = self.stack_pointer.wrapping_sub(1);
    }

    /// PHP: pushes the status byte with the B flag set in the copy.
    fn php(&mut self)
        requires
            old(self).wf(),
        ensures
            final(self).wf(),
            old(self).bus.frame_pending ==> final(self).bus.frame_pending,
            final(self).bus.cpu_vram@ == old(self).bus.cpu_vram@.update(
                0x100 + old(self).stack_pointer as int,
                old(self).status | 0b0001_0000,
            ),
            *final(self) == (CPU {
                stack_pointer: old(self).stack_pointer.wrapping_sub(1),
                bus: Bus { cpu_vram: final(self).bus.cpu_vram, ..old(self).bus },
                ..*old(self)
            }),
    {
        let copy = self.status | 0b0001_0000;
        let addr = 0x0100 + (self.stack_pointer as u16);
        match self.mem_write(addr, copy) {
            Ok(_) => {},
            Err(_) => {
                proof {
                    assert(false);
                }
            },
        }
        self.stack_pointer = self.stack_pointer.wrapping_sub(1);
    }

    /// PLA: pulls the accumulator and refreshes Z and N.
    fn pla(&mut self)
        requires
            old(self).wf(),
        ensures
            final(self).wf(),
            old(self).bus.frame_pending ==> final(self).bus.frame_pending,
            ({
                let v = old(self).bus.cpu_vram@[0x100 + old(self).stack_pointer.wrapping_add(
                    1,
                ) as int];
                *final(self) == (CPU {
                    register_a: v,
                    status: spec_update_zn(old(self).status, v),
                    stack_pointer: old(self).stack_pointer.wrapping_add(1),
                    ..*old(self)
                })
            }),
    {
        self.stack_pointer = self.stack_pointer.wrapping_add(1);
        let addr = 0x0100 + (self.stack_pointer as u16);
        self.register_a = match self.mem_read(addr) {
            Ok(v) => v,
            Err(_) => {
                proof {
                    assert(false);
                }
                0
            },
        };
        let updated = self.register_a;
        self.update_zero_and_negative_flags(updated);
    }

    /// PLP: pulls the status byte; the B flag is dropped and bit 5 forced on.
    fn plp(&mut self)
        requires
            old(self).wf(),
        ensures
            final(self).wf(),
            old(self).bus.frame_pending ==> final(self).bus.frame_pending,
            ({
                let v = old(self).bus.cpu_vram@[0x100 + old(self).stack_pointer.wrapping_add(
                    1,
                ) as int];
                *final(self) == (CPU {
                    status: spec_plp_value(v),
                    stack_pointer: old(self).stack_pointer.wrapping_add(1),
                    ..*old(self)
                })
            }),
    {
        self.stack_pointer = self.stack_pointer.wrapping_add(1);
        let addr = 0x0100 + (self.stack_pointer as u16);
        self.status = match self.mem_read(addr) {
            Ok(v) => v,
            Err(_) => {
                proof {
                    assert(false);
                }
                0
            },
        };

        if (self.status & 0b0001_0000) == 0b0001_0000 {
            self.status = self.status & 0b1110_1111;
        }
        self.status = self.status | 0b0010_0000;
    }

    /// JSR: pushes the address of the operand's last byte, then jumps.
    fn jsr(&mut self, mode: &AddressingMode) -> (r: Result<(), EmuError>)
        requires
            old(self).wf(),
            *mode == AddressingMode::Absolute,
        ensures
            final(self).wf(),
            old(self).bus.frame_pending ==> final(self).bus.frame_pending,
            final(self).bus.prg_rom@ == old(self).bus.prg_rom@,
            final(self).register_a == old(self).register_a,
            final(self).register_x == old(self).register_x,
            final(self).register_y == old(self).register_y,
            final(self).status == old(self).status,
            r is Err ==> final(self).program_counter == old(self).program_counter,
            old(self).program_counter >= 0x8000 ==> ({
                let future = old(self).program_counter.wrapping_add(1);
                &&& r is Ok
                &&& final(self).program_counter == old(self).bus.spec_pure_read_u16(
                    old(self).program_counter,
                )
                &&& final(self).stack_pointer == old(self).stack_pointer.wrapping_sub(2)
                &&& final(self).bus.cpu_vram@ == old(self).bus.cpu_vram@.update(
                    0x100 + old(self).stack_pointer as int,
                    (future / 0x100) as u8,
                ).update(
                    0x100 + old(self).stack_pointer.wrapping_sub(1) as int,
                    (future % 0x100) as u8,
                )
                &&& final(self).bus == (Bus { cpu_vram: final(self).bus.cpu_vram, ..old(self).bus })
            }),
    {
        let future_pc = self.program_counter.wrapping_add(1);
        let hi = (future_pc / 0x100) as u8;
        let lo = (future_pc % 0x100) as u8;

        let addr1 = 0x0100 + (self.stack_pointer as u16);
        match self.mem_write(addr1, hi) {
            Ok(_) => {},
            Err(_) => {
                proof {
                    assert(false);
                }
            },
        }
        self.stack_pointer = self.stack_pointer.wrapping_sub(1);

        let addr2 = 0x0100 + (self.stack_pointer as u16);
        match self.mem_write(addr2, lo) {
            Ok(_) => {},
            Err(_) => {
                proof {
                    assert(false);
                }
            },
        }
        self.stack_pointer = self.stack_pointer.wrapping_sub(1);

        let (addr, _page_crossed) = match self.get_operand_address(mode) {
            Ok(t) => t,
            Err(e) => {
                return Err(e);
            },
        };
        self.program_counter = addr;
        Ok(())
    }

    /// RTS: pulls the return address and resumes one byte past it.
    fn rts(&mut self)
        requires
            old(self).wf(),
        ensures
            final(self).wf(),
            old(self).bus.frame_pending ==> final(self).bus.frame_pending,
            ({
                let lo = old(self).bus.cpu_vram@[0x100 + old(self).stack_pointer.wrapping_add(
                    1,
                ) as int];
                let hi = old(self).bus.cpu_vram@[0x100 + old(self).stack_pointer.wrapping_add(
                    2,
                ) as int];
                *final(self) == (CPU {
                    program_counter: (((hi as u16) * 256 + (lo as u16)) as u16).wrapping_add(1),
                    stack_pointer: old(self).stack_pointer.wrapping_add(2),
                    ..*old(self)
                })
            }),
    {
        self.stack_pointer = self.stack_pointer.wrapping_add(1);
        let lo = match self.mem_read(0x0100 + (self.stack_pointer as u16)) {
            Ok(v) => v,
            Err(_) => {
                proof {
                    assert(false);
                }
                0
            },
        };

        self.stack_pointer = self.stack_pointer.wrapping_add(1);
        let hi = match self.mem_read(0x0100 + (self.stack_pointer as u16)) {
            Ok(v) => v,
            Err(_) => {
                proof {
                    assert(false);
                }
                0
            },
        };

        self.program_counter = ((hi as u16) * 256 + (lo as u16)).wrapping_add(1);
    }

    /// RTI: pulls the status byte (B dropped, bit 5 forced on), then the
    /// return address.
    fn rti(&mut self)
        requires
            old(self).wf(),
        ensures
            final(self).wf(),
            old(self).bus.frame_pending ==> final(self).bus.frame_pending,
            ({
                let st = old(self).bus.cpu_vram@[0x100 + old(self).stack_pointer.wrapping_add(
                    1,
                ) as int];
                let lo = old(self).bus.cpu_vram@[0x100 + old(self).stack_pointer.wrapping_add(
                    2,
                ) as int];
                let hi = old(self).bus.cpu_vram@[0x100 + old(self).stack_pointer.wrapping_add(
                    3,
                ) as int];
                *final(self) == (CPU {
                    status: spec_plp_value(st),
                    program_counter: ((hi as u16) * 256 + (lo as u16)) as u16,
                    stack_pointer: old(self).stack_pointer.wrapping_add(3),
                    ..*old(self)
                })
            }),
    {
        self.stack_pointer = self.stack_pointer.wrapping_add(1);
        let st = match self.mem_read(0x0100 + (self.stack_pointer as u16)) {
            Ok(v) => v,
            Err(_) => {
                proof {
                    assert(false);
                }
                0
            },
        };
        self.status = st;
        if (self.status & 0b0001_0000) == 0b0001_0000 {
            self.status = self.status & 0b1110_1111;
        }
        self.status = self.status | 0b0010_0000;

        self.stack_pointer = self.stack_pointer.wrapping_add(1);
        let lo = match self.mem_read(0x0100 + (self.stack_pointer as u16)) {
            Ok(v) => v,
            Err(_) => {
                proof {
                    assert(false);
                }
                0
            },
        };

        self.stack_pointer = self.stack_pointer.wrapping_add(1);
        let hi = match self.mem_read(0x0100 + (self.stack_pointer as u16)) {
            Ok(v) => v,
            Err(_) => {
                proof {
                    assert(false);
                }
                0
            },
        };

        self.program_counter = (hi as u16) * 256 + (lo as u16);
    }

    /// The ADC core, shared with SBC: adds `data` and the carry flag into
    /// the accumulator. The result is the 9-bit sum modulo 256; C holds
    /// exactly when the sum reached 256; V follows the signed-overflow
    /// formula over the operand, the result and the old accumulator.
    fn plus_minus(&mut self, data: u8)
        ensures
            *final(self) == (CPU {
                register_a: spec_adc_result(old(self).register_a, data, old(self).status),
                status: spec_adc_status(old(self).status, old(self).register_a, data),
                ..*old(self)
            }),
            ({
                let carry0: int = if flag_c(old(self).status) {
                    1
                } else {
                    0
                };
                let result = final(self).register_a;
                &&& result == (old(self).register_a + data + carry0) % 256
                &&& flag_c(final(self).status) == (old(self).register_a + data + carry0 >= 256)
                &&& flag_v(final(self).status) == ((data ^ result) & (result ^ old(
                    self).register_a) & 0x80 != 0)
                &&& flag_z(final(self).status) == (result == 0)
                &&& flag_n(final(self).status) == (result >= 0x80)
            }),
    {
        proof {
            lemma_carry_overflow_bits(self.status);
        }
        let c6 = self.status & 1;
        let sum: u16 = (self.register_a as u16) + (data as u16) + (c6 as u16);

        let carry = sum > 0xff;
        if carry {
            self.status = self.status | 0b0000_0001;
        } else {
            self.status = self.status & 0b1111_1110;
        }
        proof {
            lemma_carry_overflow_bits(self.status);
        }

        let result = (sum % 256) as u8;

        if (data ^ result) & (result ^ self.register_a) & 0x80 != 0 {
            self.status = self.status | 0b0100_0000;
        } else {
            self.status = self.status & 0b1011_1111;
        }

        proof {
            lemma_carry_overflow_bits(old(self).status);
            lemma_carry_overflow_bits(self.status);
            lemma_update_zn_flags(self.status, result);
        }
        self.register_a = result;
        let updated = self.register_a;
        self.update_zero_and_negative_flags(updated);
    }

    /// ADC: adds the operand and the carry into the accumulator.
    fn adc(&mut self, mode: &AddressingMode) -> (r: Result<(), EmuError>)
        requires
            old(self).wf(),
            *mode != AddressingMode::NoneAddressing,
        ensures
            final(self).wf(),
            old(self).bus.frame_pending ==> final(self).bus.frame_pending,
            spec_mem_unchanged(*old(self), *final(self)),
            r is Err ==> spec_regs_unchanged(*old(self), *final(self)),
            r is Ok ==> (final(self).program_counter == old(self).program_counter && final(
                self).register_x == old(self).register_x && final(self).register_y == old(
                self).register_y && final(self).stack_pointer == old(self).stack_pointer),
            old(self).spec_operand_pure(*mode) ==> ({
                let v = old(self).spec_operand_value(*mode);
                &&& r is Ok
                &&& final(self).register_a == spec_adc_result(
                    old(self).register_a,
                    v,
                    old(self).status,
                )
                &&& final(self).status == spec_adc_status(
                    old(self).status,
                    old(self).register_a,
                    v,
                )
                &&& final(self).bus == if old(self).spec_operand_crossed(*mode) {
                    crate::bus::spec_after_tick(old(self).bus, 1)
                } else {
                    old(self).bus
                }
            }),
    {
        let (addr, page_crossed) = match self.get_operand_address(mode) {
            Ok(t) => t,
            Err(e) => {
                return Err(e);
            },
        };
        let value = match self.mem_read(addr) {
            Ok(v) => v,
            Err(e) => {
                return Err(e);
            },
        };
        self.plus_minus(value);

        if page_crossed {
            self.bus.tick(1);
        }
        Ok(())
    }

    /// SBC: ADC with the operand bitwise-negated.
    fn sbc(&mut self, mode: &AddressingMode) -> (r: Result<(), EmuError>)
        requires
            old(self).wf(),
            *mode != AddressingMode::NoneAddressing,
        ensures
            final(self).wf(),
            old(self).bus.frame_pending ==> final(self).bus.frame_pending,
            spec_mem_unchanged(*old(self), *final(self)),
            r is Err ==> spec_regs_unchanged(*old(self), *final(self)),
            r is Ok ==> (final(self).program_counter == old(self).program_counter && final(
                self).register_x == old(self).register_x && final(self).register_y == old(
                self).register_y && final(self).stack_pointer == old(self).stack_pointer),
            old(self).spec_operand_pure(*mode) ==> ({
                let v = old(self).spec_operand_value(*mode);
                &&& r is Ok
                &&& final(self).register_a == spec_adc_result(
                    old(self).register_a,
                    !v,
                    old(self).status,
                )
                &&& final(self).status == spec_adc_status(
                    old(self).status,
                    old(self).register_a,
                    !v,
                )
                &&& final(self).bus == if old(self).spec_operand_crossed(*mode) {
                    crate::bus::spec_after_tick(old(self).bus, 1)
                } else {
                    old(self).bus
                }
            }),
    {
        let (addr, page_crossed) = match self.get_operand_address(mode) {
            Ok(t) => t,
            Err(e) => {
                return Err(e);
            },
        };
        let value = match self.mem_read(addr) {
            Ok(v) => v,
            Err(e) => {
                return Err(e);
            },
        };
        self.plus_minus(!value);

        if page_crossed {
            self.bus.tick(1);
        }
        Ok(())
    }

    /// DCP (unofficial): decrements the byte at the operand address, then
    /// compares the accumulator against it (C is only ever set, as in the
    /// composed form).
    fn dcp(&mut self, mode: &AddressingMode) -> (r: Result<(), EmuError>)
        requires
            old(self).wf(),
            *mode != AddressingMode::NoneAddressing,
        ensures
            final(self).wf(),
            old(self).bus.frame_pending ==> final(self).bus.frame_pending,
            final(self).bus.prg_rom@ == old(self).bus.prg_rom@,
            r is Err ==> spec_regs_unchanged(*old(self), *final(self)),
            r is Ok ==> (final(self).program_counter == old(self).program_counter && final(
                self).register_a == old(self).register_a && final(self).register_x == old(
                self).register_x && final(self).register_y == old(self).register_y && final(
                self).stack_pointer == old(self).stack_pointer),
            (old(self).spec_operand_pure(*mode) && old(self).spec_operand_address(*mode).0
                < 0x2000) ==> ({
                let target = old(self).spec_operand_address(*mode).0;
                let nv = old(self).spec_operand_value(*mode).wrapping_sub(1);
                let s1 = if nv <= old(self).register_a {
                    old(self).status | 0b0000_0001
                } else {
                    old(self).status
                };
                &&& r is Ok
                &&& final(self).bus.cpu_vram@ == old(self).bus.cpu_vram@.update(
                    (target % 0x800) as int,
                    nv,
                )
                &&& final(self).status == spec_update_zn(s1, old(self).register_a.wrapping_sub(nv))
                &&& final(self).bus == (Bus { cpu_vram: final(self).bus.cpu_vram, ..old(self).bus })
            }),
    {
        let (addr, _page_crossed) = match self.get_operand_address(mode) {
            Ok(t) => t,
            Err(e) => {
                return Err(e);
            },
        };
        let mut value = match self.mem_read(addr) {
            Ok(v) => v,
            Err(e) => {
                return Err(e);
            },
        };

        value = value.wrapping_sub(1);
        match self.mem_write(addr, value) {
            Ok(_) => {},
            Err(e) => {
                return Err(e);
            },
        }

        if value <= self.register_a {
            self.sec();
        }

        let diff = self.register_a.wrapping_sub(value);
        self.update_zero_and_negative_flags(diff);
        Ok(())
    }

    /// RLA (unofficial): ROL on the operand, then AND of it.
    fn rla(&mut self, mode: &AddressingMode) -> (r: Result<(), EmuError>)
        requires
            old(self).wf(),
            *mode != AddressingMode::NoneAddressing,
        ensures
            final(self).wf(),
            old(self).bus.frame_pending ==> final(self).bus.frame_pending,
            final(self).bus.prg_rom@ == old(self).bus.prg_rom@,
            final(self).program_counter == old(self).program_counter,
            final(self).register_x == old(self).register_x,
            final(self).register_y == old(self).register_y,
            final(self).stack_pointer == old(self).stack_pointer,
    {
        match self.rol(mode) {
            Ok(_) => {},
            Err(e) => {
                return Err(e);
            },
        }
        self.and(mode)
    }

    /// SLO (unofficial): ASL on the operand, then ORA of it.
    fn slo(&mut self, mode: &AddressingMode) -> (r: Result<(), EmuError>)
        requires
            old(self).wf(),
            *mode != AddressingMode::NoneAddressing,
        ensures
            final(self).wf(),
            old(self).bus.frame_pending ==> final(self).bus.frame_pending,
            final(self).bus.prg_rom@ == old(self).bus.prg_rom@,
            final(self).program_counter == old(self).program_counter,
            final(self).register_x == old(self).register_x,
            final(self).register_y == old(self).register_y,
            final(self).stack_pointer == old(self).stack_pointer,
    {
        match self.asl(mode) {
            Ok(_) => {},
            Err(e) => {
                return Err(e);
            },
        }
        self.ora(mode)
    }

    /// SRE (unofficial): LSR on the operand, then EOR of it.
    fn sre(&mut self, mode: &AddressingMode) -> (r: Result<(), EmuError>)
        requires
            old(self).wf(),
            *mode != AddressingMode::NoneAddressing,
        ensures
            final(self).wf(),
            old(self).bus.frame_pending ==> final(self).bus.frame_pending,
            final(self).bus.prg_rom@ == old(self).bus.prg_rom@,
            final(self).program_counter == old(self).program_counter,
            final(self).register_x == old(self).register_x,
            final(self).register_y == old(self).register_y,
            final(self).stack_pointer == old(self).stack_pointer,
    {
        match self.lsr(mode) {
            Ok(_) => {},
            Err(e) => {
                return Err(e);
            },
        }
        self.eor(mode)
    }

    /// AXS (unofficial): X becomes (A & X) minus the operand; C is set when
    /// no borrow was needed.
    fn axs(&mut self, mode: &AddressingMode) -> (r: Result<(), EmuError>)
        requires
            old(self).wf(),
            *mode != AddressingMode::NoneAddressing,
        ensures
            final(self).wf(),
            old(self).bus.frame_pending ==> final(self).bus.frame_pending,
            spec_mem_unchanged(*old(self), *final(self)),
            r is Err ==> spec_regs_unchanged(*old(self), *final(self)),
            r is Ok ==> (final(self).program_counter == old(self).program_counter && final(
                self).register_a == old(self).register_a && final(self).register_y == old(
                self).register_y && final(self).stack_pointer == old(self).stack_pointer),
            old(self).spec_operand_pure(*mode) ==> ({
                let v = old(self).spec_operand_value(*mode);
                let masked = old(self).register_a & old(self).register_x;
                let s1 = if v <= masked {
                    old(self).status | 0b0000_0001
                } else {
                    old(self).status
                };
                &&& r is Ok
                &&& final(self).register_x == masked.wrapping_sub(v)
                &&& final(self).status == spec_update_zn(s1, masked.wrapping_sub(v))
            }),
    {
        let (addr, _page_crossed) = match self.get_operand_address(mode) {
            Ok(t) => t,
            Err(e) => {
                return Err(e);
            },
        };
        let value = match self.mem_read(addr) {
            Ok(v) => v,
            Err(e) => {
                return Err(e);
            },
        };

        if value <= (self.register_a & self.register_x) {
            self.sec();
        }

        self.register_x = (self.register_a & self.register_x).wrapping_sub(value);
        let updated = self.register_x;
        self.update_zero_and_negative_flags(updated);
        Ok(())
    }

    /// ARR (unofficial): AND then ROR, with C and V rebuilt from bits 5 and
    /// 6 of the accumulator; the composed form is kept as-is.
    fn arr(&mut self, mode: &AddressingMode) -> (r: Result<(), EmuError>)
        requires
            old(self).wf(),
            *mode != AddressingMode::NoneAddressing,
        ensures
            final(self).wf(),
            old(self).bus.frame_pending ==> final(self).bus.frame_pending,
            final(self).bus.prg_rom@ == old(self).bus.prg_rom@,
            final(self).program_counter == old(self).program_counter,
            final(self).register_x == old(self).register_x,
            final(self).register_y == old(self).register_y,
            final(self).stack_pointer == old(self).stack_pointer,
    {
        match self.and(mode) {
            Ok(_) => {},
            Err(e) => {
                return Err(e);
            },
        }
        match self.ror(mode) {
            Ok(_) => {},
            Err(e) => {
                return Err(e);
            },
        }

        let b5 = (self.register_a >> 5u8) & 1;
        let b6 = (self.register_a >> 6u8) & 1;

        if b5 == 1 && b6 == 1 {
            self.sec();
            self.clv();
        } else if b5 == 0 && b6 == 0 {
            self.clc();
            self.clv();
        } else if b5 == 1 && b6 == 0 {
            self.set_v();
            self.clc();
        } else {
            self.sec();
            self.set_v();
        }
        Ok(())
    }

    /// ANC (unofficial): AND, then C copies the negative flag.
    fn anc(&mut self, mode: &AddressingMode) -> (r: Result<(), EmuError>)
        requires
            old(self).wf(),
            *mode != AddressingMode::NoneAddressing,
        ensures
            final(self).wf(),
            old(self).bus.frame_pending ==> final(self).bus.frame_pending,
            spec_mem_unchanged(*old(self), *final(self)),
            r is Err ==> spec_regs_unchanged(*old(self), *final(self)),
            r is Ok ==> (final(self).program_counter == old(self).program_counter && final(
                self).register_x == old(self).register_x && final(self).register_y == old(
                self).register_y && final(self).stack_pointer == old(self).stack_pointer),
            old(self).spec_operand_pure(*mode) ==> ({
                let v = old(self).spec_operand_value(*mode);
                let s1 = spec_update_zn(old(self).status, old(self).register_a & v);
                &&& r is Ok
                &&& final(self).register_a == (old(self).register_a & v)
                &&& final(self).status == if flag_n(s1) {
                    s1 | 0b0000_0001
                } else {
                    s1 & 0b1111_1110
                }
            }),
    {
        match self.and(mode) {
            Ok(_) => {},
            Err(e) => {
                return Err(e);
            },
        }

        proof {
            lemma_single_bit_test(self.status);
        }
        if self.status & 0b1000_0000 == 0b1000_0000 {
            self.sec();
        } else {
            self.clc();
        }
        Ok(())
    }

    /// ALR (unofficial): AND, then LSR; the composed form is kept as-is.
    fn alr(&mut self, mode: &AddressingMode) -> (r: Result<(), EmuError>)
        requires
            old(self).wf(),
            *mode != AddressingMode::NoneAddressing,
        ensures
            final(self).wf(),
            old(self).bus.frame_pending ==> final(self).bus.frame_pending,
            final(self).bus.prg_rom@ == old(self).bus.prg_rom@,
            final(self).program_counter == old(self).program_counter,
            final(self).register_x == old(self).register_x,
            final(self).register_y == old(self).register_y,
            final(self).stack_pointer == old(self).stack_pointer,
    {
        match self.and(mode) {
            Ok(_) => {},
            Err(e) => {
                return Err(e);
            },
        }
        self.lsr(mode)
    }

    /// RRA (unofficial): ROR on the operand, then ADC of it.
    fn rra(&mut self, mode: &AddressingMode) -> (r: Result<(), EmuError>)
        requires
            old(self).wf(),
            *mode != AddressingMode::NoneAddressing,
        ensures
            final(self).wf(),
            old(self).bus.frame_pending ==> final(self).bus.frame_pending,
            final(self).bus.prg_rom@ == old(self).bus.prg_rom@,
            final(self).program_counter == old(self).program_counter,
            final(self).register_x == old(self).register_x,
            final(self).register_y == old(self).register_y,
            final(self).stack_pointer == old(self).stack_pointer,
    {
        match self.ror(mode) {
            Ok(_) => {},
            Err(e) => {
                return Err(e);
            },
        }
        self.adc(mode)
    }

    /// ISB (unofficial): INC on the operand, then SBC of it.
    fn isb(&mut self, mode: &AddressingMode) -> (r: Result<(), EmuError>)
        requires
            old(self).wf(),
            *mode != AddressingMode::NoneAddressing,
        ensures
            final(self).wf(),
            old(self).bus.frame_pending ==> final(self).bus.frame_pending,
            final(self).bus.prg_rom@ == old(self).bus.prg_rom@,
            final(self).program_counter == old(self).program_counter,
            final(self).register_x == old(self).register_x,
            final(self).register_y == old(self).register_y,
            final(self).stack_pointer == old(self).stack_pointer,
    {
        match self.inc(mode) {
            Ok(_) => {},
            Err(e) => {
                return Err(e);
            },
        }
        self.sbc(mode)
    }

    /// LAX (unofficial): loads the operand into both A and X.
    fn lax(&mut self, mode: &AddressingMode) -> (r: Result<(), EmuError>)
        requires
            old(self).wf(),
            *mode != AddressingMode::NoneAddressing,
        ensures
            final(self).wf(),
            old(self).bus.frame_pending ==> final(self).bus.frame_pending,
            spec_mem_unchanged(*old(self), *final(self)),
            final(self).program_counter == old(self).program_counter,
            final(self).register_y == old(self).register_y,
            final(self).stack_pointer == old(self).stack_pointer,
            old(self).spec_operand_pure(*mode) ==> ({
                let v = old(self).spec_operand_value(*mode);
                &&& r is Ok
                &&& final(self).register_a == v
                &&& final(self).register_x == v
            }),
    {
        match self.lda(mode) {
            Ok(_) => {},
            Err(e) => {
                return Err(e);
            },
        }
        self.ldx(mode)
    }

    /// SAX (unofficial): stores A & X at the operand address.
    fn sax(&mut self, mode: &AddressingMode) -> (r: Result<(), EmuError>)
        requires
            old(self).wf(),
            *mode != AddressingMode::NoneAddressing,
        ensures
            final(self).wf(),
            old(self).bus.frame_pending ==> final(self).bus.frame_pending,
            spec_regs_unchanged(*old(self), *final(self)),
            final(self).bus.prg_rom@ == old(self).bus.prg_rom@,
            old(self).spec_operand_reads_pure(*mode) ==> ({
                let target = old(self).spec_operand_address(*mode).0;
                target < 0x2000 ==> (r is Ok && final(self).bus.cpu_vram@ == old(
                    self).bus.cpu_vram@.update(
                    (target % 0x800) as int,
                    old(self).register_a & old(self).register_x,
                ) && final(self).bus == (Bus { cpu_vram: final(self).bus.cpu_vram, ..old(self).bus }))
            }),
    {
        let (addr, _page_crossed) = match self.get_operand_address(mode) {
            Ok(t) => t,
            Err(e) => {
                return Err(e);
            },
        };
        let data = self.register_a & self.register_x;
        match self.mem_write(addr, data) {
            Ok(_) => Ok(()),
            Err(e) => Err(e),
        }
    }

    /// Interrupt entry: pushes PC and a copy of P (B clear, bit 5 set),
    /// masks further interrupts, charges the service cycles, and vectors
    /// through the interrupt table at `$FFFA`.
    fn interrupt(&mut self, _kind: InterruptType)
        requires
            old(self).wf(),
        ensures
            final(self).wf(),
            old(self).bus.frame_pending ==> final(self).bus.frame_pending,
            final(self).register_a == old(self).register_a,
            final(self).register_x == old(self).register_x,
            final(self).register_y == old(self).register_y,
            final(self).stack_pointer == old(self).stack_pointer.wrapping_sub(3),
            final(self).status == old(self).status | 0b0000_0100,
            final(self).program_counter == old(self).bus.spec_pure_read_u16(0xfffa),
            final(self).bus.cpu_vram@ == old(self).bus.cpu_vram@.update(
                0x100 + old(self).stack_pointer as int,
                (old(self).program_counter / 0x100) as u8,
            ).update(
                0x100 + old(self).stack_pointer.wrapping_sub(1) as int,
                (old(self).program_counter % 0x100) as u8,
            ).update(
                0x100 + old(self).stack_pointer.wrapping_sub(2) as int,
                (old(self).status & 0b1110_1111) | 0b0010_0000,
            ),
            final(self).bus == crate::bus::spec_after_tick(
                Bus { cpu_vram: final(self).bus.cpu_vram, ..old(self).bus },
                2,
            ),
    {
        let hi = (self.program_counter / 0x100) as u8;
        let lo = (self.program_counter % 0x100) as u8;

        let addr0 = 0x0100 + (self.stack_pointer as u16);
        match self.mem_write(addr0, hi) {
            Ok(_) => {},
            Err(_) => {
                proof {
                    assert(false);
                }
            },
        }
        self.stack_pointer = self.stack_pointer.wrapping_sub(1);

        let addr1 = 0x0100 + (self.stack_pointer as u16);
        match self.mem_write(addr1, lo) {
            Ok(_) => {},
            Err(_) => {
                proof {
                    assert(false);
                }
            },
        }
        self.stack_pointer = self.stack_pointer.wrapping_sub(1);

        let flag = (self.status & 0b1110_1111) | 0b0010_0000;

        let addr2 = 0x0100 + (self.stack_pointer as u16);
        match self.mem_write(addr2, flag) {
            Ok(_) => {},
            Err(_) => {
                proof {
                    assert(false);
                }
            },
        }
        self.stack_pointer = self.stack_pointer.wrapping_sub(1);

        self.status = self.status | 0b0000_0100;

        self.bus.tick(2);
        self.program_counter = match self.mem_read_u16(0xfffa) {
            Ok(v) => v,
            Err(_) => {
                proof {
                    assert(false);
                }
                0
            },
        };
    }

    /// One iteration of the run loop: service a pending NMI, fetch, decode
    /// and execute one instruction, charge its cycles to the bus, and step
    /// the program counter past the instruction unless it wrote PC itself.
    /// Dispatch for the implied register, flag and stack instructions, and the one-byte NOPs.
    #[verifier::rlimit(100)]
    #[verifier::spinoff_prover]
    fn dispatch_implied(&mut self, code: u8, mode: &AddressingMode) -> (r: Result<(), EmuError>)
        requires
            old(self).wf(),
            crate::opcodes::spec_opcode_known(code),
            code != 0x00,
            *mode == crate::opcodes::spec_opcode_mode(code),
        ensures
            final(self).wf(),
            old(self).bus.frame_pending ==> final(self).bus.frame_pending,
            r is Ok,
            (r is Ok && !spec_opcode_writes_pc(code, old(self).status)) ==> final(
                self).program_counter == old(self).program_counter,
    {
        match code {
            0xaa => {
                self.tax();
            },
            0xa8 => {
                self.tay();
            },
            0x8a => {
                self.txa();
            },
            0x98 => {
                self.tya();
            },
            0xba => {
                self.tsx();
            },
            0x9a => {
                self.txs();
            },
            0xe8 => {
                self.inx();
            },
            0xca => {
                self.dex();
            },
            0xc8 => {
                self.iny();
            },
            0x88 => {
                self.dey();
            },
            0x38 => {
                self.sec();
            },
            0x18 => {
                self.clc();
            },
            0x78 => {
                self.sei();
            },
            0x58 => {
                self.cli();
            },
            0xf8 => {
                self.sed();
            },
            0xd8 => {
                self.cld();
            },
            0xb8 => {
                self.clv();
            },
            0x48 => {
                self.pha();
            },
            0x08 => {
                self.php();
            },
            0x68 => {
                self.pla();
            },
            0x28 => {
                self.plp();
            },
            0xea | 0x1a | 0x3a | 0x5a | 0x7a | 0xda | 0xfa | 0x02 | 0x12 | 0x22 | 0x32 | 0x42 |
                0x52 | 0x62 | 0x72 | 0x92 | 0xb2 | 0xd2 | 0xf2 => {
                // single-byte NOPs; the halt encodings are treated as NOPs
            },
            _ => {
            },
        }
        Ok(())
    }

    /// Dispatch for the loads, stores, bitwise-logic instructions, BIT and the operand-reading NOPs.
    #[verifier::rlimit(100)]
    #[verifier::spinoff_prover]
    fn dispatch_memory(&mut self, code: u8, mode: &AddressingMode) -> (r: Result<(), EmuError>)
        requires
            old(self).wf(),
            crate::opcodes::spec_opcode_known(code),
            code != 0x00,
            *mode == crate::opcodes::spec_opcode_mode(code),
        ensures
            final(self).wf(),
            old(self).bus.frame_pending ==> final(self).bus.frame_pending,
            (r is Ok && !spec_opcode_writes_pc(code, old(self).status)) ==> final(
                self).program_counter == old(self).program_counter,
    {
        match code {
            0xa9 | 0xa5 | 0xb5 | 0xad | 0xbd | 0xb9 | 0xa1 | 0xb1 => {
                match self.lda(mode) {
                    Ok(_) => {},
                    Err(e) => {
                        return Err(e);
                    },
                }
            },
            0xa2 | 0xa6 | 0xb6 | 0xae | 0xbe => {
                match self.ldx(mode) {
                    Ok(_) => {},
                    Err(e) => {
                        return Err(e);
                    },
                }
            },
            0xa0 | 0xa4 | 0xb4 | 0xac | 0xbc => {
                match self.ldy(mode) {
                    Ok(_) => {},
                    Err(e) => {
                        return Err(e);
                    },
                }
            },
            0x85 | 0x95 | 0x8d | 0x9d | 0x99 | 0x81 | 0x91 => {
                match self.sta(mode) {
                    Ok(_) => {},
                    Err(e) => {
                        return Err(e);
                    },
                }
            },
            0x86 | 0x96 | 0x8e => {
                match self.stx(mode) {
                    Ok(_) => {},
                    Err(e) => {
                        return Err(e);
                    },
                }
            },
            0x84 | 0x94 | 0x8c => {
                match self.sty(mode) {
                    Ok(_) => {},
                    Err(e) => {
                        return Err(e);
                    },
                }
            },
            0x29 | 0x25 | 0x35 | 0x2d | 0x3d | 0x39 | 0x21 | 0x31 => {
                match self.and(mode) {
                    Ok(_) => {},
                    Err(e) => {
                        return Err(e);
                    },
                }
            },
            0x09 | 0x05 | 0x15 | 0x0d | 0x1d | 0x19 | 0x01 | 0x11 => {
                match self.ora(mode) {
                    Ok(_) => {},
                    Err(e) => {
                        return Err(e);
                    },
                }
            },
            0x49 | 0x45 | 0x55 | 0x4d | 0x5d | 0x59 | 0x41 | 0x51 => {
                match self.eor(mode) {
                    Ok(_) => {},
                    Err(e) => {
                        return Err(e);
                    },
                }
            },
            0x24 | 0x2c => {
                match self.bit(mode) {
                    Ok(_) => {},
                    Err(e) => {
                        return Err(e);
                    },
                }
            },
            0x04 | 0x44 | 0x64 | 0x14 | 0x34 | 0x54 | 0x74 | 0xd4 | 0xf4 | 0x0c | 0x1c | 0x3c |
                0x5c | 0x7c | 0xdc | 0xfc | 0x80 | 0x82 | 0x89 | 0xc2 | 0xe2 => {
                // multi-byte NOPs consume their operand and do nothing else
                let (addr, _page_crossed) = match self.get_operand_address(mode) {
                    Ok(t) => t,
                    Err(e) => {
                        return Err(e);
                    },
                };
                match self.mem_read(addr) {
                    Ok(_) => {},
                    Err(e) => {
                        return Err(e);
                    },
                }
            },
            _ => {
            },
        }
        Ok(())
    }

    /// Dispatch for the arithmetic, comparison, shift and increment/decrement instructions.
    #[verifier::rlimit(100)]
    #[verifier::spinoff_prover]
    fn dispatch_arithmetic(&mut self, code: u8, mode: &AddressingMode) -> (r: Result<(), EmuError>)
        requires
            old(self).wf(),
            crate::opcodes::spec_opcode_known(code),
            code != 0x00,
            *mode == crate::opcodes::spec_opcode_mode(code),
        ensures
            final(self).wf(),
            old(self).bus.frame_pending ==> final(self).bus.frame_pending,
            (r is Ok && !spec_opcode_writes_pc(code, old(self).status)) ==> final(
                self).program_counter == old(self).program_counter,
    {
        match code {
            0x69 | 0x65 | 0x75 | 0x6d | 0x7d | 0x79 | 0x61 | 0x71 => {
                match self.adc(mode) {
                    Ok(_) => {},
                    Err(e) => {
                        return Err(e);
                    },
                }
            },
            0xe9 | 0xe5 | 0xf5 | 0xed | 0xfd | 0xf9 | 0xe1 | 0xf1 | 0xeb => {
                match self.sbc(mode) {
                    Ok(_) => {},
                    Err(e) => {
                        return Err(e);
                    },
                }
            },
            0xc9 | 0xc5 | 0xd5 | 0xcd | 0xdd | 0xd9 | 0xc1 | 0xd1 => {
                match self.cmp(mode) {
                    Ok(_) => {},
                    Err(e) => {
                        return Err(e);
                    },
                }
            },
            0xe0 | 0xe4 | 0xec => {
                match self.cpx(mode) {
                    Ok(_) => {},
                    Err(e) => {
                        return Err(e);
                    },
                }
            },
            0xc0 | 0xc4 | 0xcc => {
                match self.cpy(mode) {
                    Ok(_) => {},
                    Err(e) => {
                        return Err(e);
                    },
                }
            },
            0x0a | 0x06 | 0x16 | 0x0e | 0x1e => {
                match self.asl(mode) {
                    Ok(_) => {},
                    Err(e) => {
                        return Err(e);
                    },
                }
            },
            0x2a | 0x26 | 0x36 | 0x2e | 0x3e => {
                match self.rol(mode) {
                    Ok(_) => {},
                    Err(e) => {
                        return Err(e);
                    },
                }
            },
            0x4a | 0x46 | 0x56 | 0x4e | 0x5e => {
                match self.lsr(mode) {
                    Ok(_) => {},
                    Err(e) => {
                        return Err(e);
                    },
                }
            },
            0x6a | 0x66 | 0x76 | 0x6e | 0x7e => {
                match self.ror(mode) {
                    Ok(_) => {},
                    Err(e) => {
                        return Err(e);
                    },
                }
            },
            0xe6 | 0xf6 | 0xee | 0xfe => {
                match self.inc(mode) {
                    Ok(_) => {},
                    Err(e) => {
                        return Err(e);
                    },
                }
            },
            0xc6 | 0xd6 | 0xce | 0xde => {
                match self.dec(mode) {
                    Ok(_) => {},
                    Err(e) => {
                        return Err(e);
                    },
                }
            },
            _ => {
            },
        }
        Ok(())
    }

    /// Dispatch for the branches, jumps, calls and returns.
    #[verifier::rlimit(100)]
    #[verifier::spinoff_prover]
    fn dispatch_control(&mut self, code: u8, mode: &AddressingMode) -> (r: Result<(), EmuError>)
        requires
            old(self).wf(),
            crate::opcodes::spec_opcode_known(code),
            code != 0x00,
            *mode == crate::opcodes::spec_opcode_mode(code),
        ensures
            final(self).wf(),
            old(self).bus.frame_pending ==> final(self).bus.frame_pending,
            (r is Ok && !spec_opcode_writes_pc(code, old(self).status)) ==> final(
                self).program_counter == old(self).program_counter,
    {
        match code {
            0x40 => {
                self.rti();
            },
            0x20 => {
                match self.jsr(mode) {
                    Ok(_) => {},
                    Err(e) => {
                        return Err(e);
                    },
                }
            },
            0x60 => {
                self.rts();
            },
            0xd0 => {
                match self.bne() {
                    Ok(_) => {},
                    Err(e) => {
                        return Err(e);
                    },
                }
            },
            0x90 => {
                match self.bcc() {
                    Ok(_) => {},
                    Err(e) => {
                        return Err(e);
                    },
                }
            },
            0xb0 => {
                match self.bcs() {
                    Ok(_) => {},
                    Err(e) => {
                        return Err(e);
                    },
                }
            },
            0xf0 => {
                match self.beq() {
                    Ok(_) => {},
                    Err(e) => {
                        return Err(e);
                    },
                }
            },
            0x30 => {
                match self.bmi() {
                    Ok(_) => {},
                    Err(e) => {
                        return Err(e);
                    },
                }
            },
            0x10 => {
                match self.bpl() {
                    Ok(_) => {},
                    Err(e) => {
                        return Err(e);
                    },
                }
            },
            0x50 => {
                match self.bvc() {
                    Ok(_) => {},
                    Err(e) => {
                        return Err(e);
                    },
                }
            },
            0x70 => {
                match self.bvs() {
                    Ok(_) => {},
                    Err(e) => {
                        return Err(e);
                    },
                }
            },
            0x4c | 0x6c => {
                match self.jmp(mode) {
                    Ok(_) => {},
                    Err(e) => {
                        return Err(e);
                    },
                }
            },
            _ => {
            },
        }
        Ok(())
    }

    /// Dispatch for the unofficial opcodes.
    #[verifier::rlimit(100)]
    #[verifier::spinoff_prover]
    fn dispatch_unofficial(&mut self, code: u8, mode: &AddressingMode) -> (r: Result<(), EmuError>)
        requires
            old(self).wf(),
            crate::opcodes::spec_opcode_known(code),
            code != 0x00,
            *mode == crate::opcodes::spec_opcode_mode(code),
        ensures
            final(self).wf(),
            old(self).bus.frame_pending ==> final(self).bus.frame_pending,
            (r is Ok && !spec_opcode_writes_pc(code, old(self).status)) ==> final(
                self).program_counter == old(self).program_counter,
    {
        match code {
            0xc7 | 0xd7 | 0xcf | 0xdf | 0xdb | 0xd3 | 0xc3 => {
                match self.dcp(mode) {
                    Ok(_) => {},
                    Err(e) => {
                        return Err(e);
                    },
                }
            },
            0x27 | 0x37 | 0x2f | 0x3f | 0x3b | 0x33 | 0x23 => {
                match self.rla(mode) {
                    Ok(_) => {},
                    Err(e) => {
                        return Err(e);
                    },
                }
            },
            0x07 | 0x17 | 0x0f | 0x1f | 0x1b | 0x03 | 0x13 => {
                match self.slo(mode) {
                    Ok(_) => {},
                    Err(e) => {
                        return Err(e);
                    },
                }
            },
            0x47 | 0x57 | 0x4f | 0x5f | 0x5b | 0x43 | 0x53 => {
                match self.sre(mode) {
                    Ok(_) => {},
                    Err(e) => {
                        return Err(e);
                    },
                }
            },
            0xcb => {
                match self.axs(mode) {
                    Ok(_) => {},
                    Err(e) => {
                        return Err(e);
                    },
                }
            },
            0x6b => {
                match self.arr(mode) {
                    Ok(_) => {},
                    Err(e) => {
                        return Err(e);
                    },
                }
            },
            0x0b | 0x2b => {
                match self.anc(mode) {
                    Ok(_) => {},
                    Err(e) => {
                        return Err(e);
                    },
                }
            },
            0x4b => {
                match self.alr(mode) {
                    Ok(_) => {},
                    Err(e) => {
                        return Err(e);
                    },
                }
            },
            0x67 | 0x77 | 0x6f | 0x7f | 0x7b | 0x63 | 0x73 => {
                match self.rra(mode) {
                    Ok(_) => {},
                    Err(e) => {
                        return Err(e);
                    },
                }
            },
            0xe7 | 0xf7 | 0xef | 0xff | 0xfb | 0xe3 | 0xf3 => {
                match self.isb(mode) {
                    Ok(_) => {},
                    Err(e) => {
                        return Err(e);
                    },
                }
            },
            0xa7 | 0xb7 | 0xaf | 0xbf | 0xa3 | 0xb3 => {
                match self.lax(mode) {
                    Ok(_) => {},
                    Err(e) => {
                        return Err(e);
                    },
                }
            },
            0x87 | 0x97 | 0x8f | 0x83 => {
                match self.sax(mode) {
                    Ok(_) => {},
                    Err(e) => {
                        return Err(e);
                    },
                }
            },
            _ => {
            },
        }
        Ok(())
    }

    /// Executes one already-fetched instruction (never BRK), selecting the
    /// handler by the opcode byte with the addressing mode the table gives
    /// it. An instruction that does not write PC leaves it untouched.
    #[verifier::rlimit(100)]
    #[verifier::spinoff_prover]
    fn dispatch_opcode(&mut self, code: u8, mode: &AddressingMode) -> (r: Result<(), EmuError>)
        requires
            old(self).wf(),
            crate::opcodes::spec_opcode_known(code),
            code != 0x00,
            *mode == crate::opcodes::spec_opcode_mode(code),
        ensures
            final(self).wf(),
            old(self).bus.frame_pending ==> final(self).bus.frame_pending,
            spec_opcode_infallible(code) ==> r is Ok,
            (r is Ok && !spec_opcode_writes_pc(code, old(self).status)) ==> final(
                self).program_counter == old(self).program_counter,
    {
        match code {
            0xaa | 0xa8 | 0x8a | 0x98 | 0xba | 0x9a | 0xe8 | 0xca | 0xc8 | 0x88 | 0x38 | 0x18 |
                0x78 | 0x58 | 0xf8 | 0xd8 | 0xb8 | 0x48 | 0x08 | 0x68 | 0x28 | 0xea | 0x1a |
                0x3a | 0x5a | 0x7a | 0xda | 0xfa | 0x02 | 0x12 | 0x22 | 0x32 | 0x42 | 0x52 |
                0x62 | 0x72 | 0x92 | 0xb2 | 0xd2 | 0xf2 => self.dispatch_implied(code, mode),
            0xa9 | 0xa5 | 0xb5 | 0xad | 0xbd | 0xb9 | 0xa1 | 0xb1 | 0xa2 | 0xa6 | 0xb6 | 0xae |
                0xbe | 0xa0 | 0xa4 | 0xb4 | 0xac | 0xbc | 0x85 | 0x95 | 0x8d | 0x9d | 0x99 |
                0x81 | 0x91 | 0x86 | 0x96 | 0x8e | 0x84 | 0x94 | 0x8c | 0x29 | 0x25 | 0x35 |
                0x2d | 0x3d | 0x39 | 0x21 | 0x31 | 0x09 | 0x05 | 0x15 | 0x0d | 0x1d | 0x19 |
                0x01 | 0x11 | 0x49 | 0x45 | 0x55 | 0x4d | 0x5d | 0x59 | 0x41 | 0x51 | 0x24 |
                0x2c | 0x04 | 0x44 | 0x64 | 0x14 | 0x34 | 0x54 | 0x74 | 0xd4 | 0xf4 | 0x0c |
                0x1c | 0x3c | 0x5c | 0x7c | 0xdc | 0xfc | 0x80 | 0x82 | 0x89 | 0xc2 | 0xe2 => self.dispatch_memory(code, mode),
            0x69 | 0x65 | 0x75 | 0x6d | 0x7d | 0x79 | 0x61 | 0x71 | 0xe9 | 0xe5 | 0xf5 | 0xed |
                0xfd | 0xf9 | 0xe1 | 0xf1 | 0xeb | 0xc9 | 0xc5 | 0xd5 | 0xcd | 0xdd | 0xd9 |
                0xc1 | 0xd1 | 0xe0 | 0xe4 | 0xec | 0xc0 | 0xc4 | 0xcc | 0x0a | 0x06 | 0x16 |
                0x0e | 0x1e | 0x2a | 0x26 | 0x36 | 0x2e | 0x3e | 0x4a | 0x46 | 0x56 | 0x4e |
                0x5e | 0x6a | 0x66 | 0x76 | 0x6e | 0x7e | 0xe6 | 0xf6 | 0xee | 0xfe | 0xc6 |
                0xd6 | 0xce | 0xde => self.dispatch_arithmetic(code, mode),
            0x40 | 0x20 | 0x60 | 0xd0 | 0x90 | 0xb0 | 0xf0 | 0x30 | 0x10 | 0x50 | 0x70 | 0x4c |
                0x6c => self.dispatch_control(code, mode),
            0xc7 | 0xd7 | 0xcf | 0xdf | 0xdb | 0xd3 | 0xc3 | 0x27 | 0x37 | 0x2f | 0x3f | 0x3b |
                0x33 | 0x23 | 0x07 | 0x17 | 0x0f | 0x1f | 0x1b | 0x03 | 0x13 | 0x47 | 0x57 |
                0x4f | 0x5f | 0x5b | 0x43 | 0x53 | 0xcb | 0x6b | 0x0b | 0x2b | 0x4b | 0x67 |
                0x77 | 0x6f | 0x7f | 0x7b | 0x63 | 0x73 | 0xe7 | 0xf7 | 0xef | 0xff | 0xfb |
                0xe3 | 0xf3 | 0xa7 | 0xb7 | 0xaf | 0xbf | 0xa3 | 0xb3 | 0x87 | 0x97 | 0x8f |
                0x83 => self.dispatch_unofficial(code, mode),
            _ => Ok(()),
        }
    }

    /// Services a pending NMI, as the run loop does before each fetch: PC
    /// and a copy of P (B clear, bit 5 set) are pushed, further interrupts
    /// are masked, two CPU cycles are charged, and execution vectors through
    /// `$FFFA`. The latch is consumed; the result says whether an interrupt
    /// was pending.
    pub fn service_pending_nmi(&mut self) -> (r: bool)
        requires
            old(self).wf(),
        ensures
            final(self).wf(),
            old(self).bus.frame_pending ==> final(self).bus.frame_pending,
            r == (old(self).bus.ppu.nmi_interrupt is Some),
            !r ==> *final(self) == *old(self),
            r ==> ({
                &&& final(self).register_a == old(self).register_a
                &&& final(self).register_x == old(self).register_x
                &&& final(self).register_y == old(self).register_y
                &&& final(self).stack_pointer == old(self).stack_pointer.wrapping_sub(3)
                &&& final(self).status == old(self).status | 0b0000_0100
                &&& final(self).program_counter == old(self).bus.spec_pure_read_u16(0xfffa)
                &&& final(self).bus.cpu_vram@ == old(self).bus.cpu_vram@.update(
                    0x100 + old(self).stack_pointer as int,
                    (old(self).program_counter / 0x100) as u8,
                ).update(
                    0x100 + old(self).stack_pointer.wrapping_sub(1) as int,
                    (old(self).program_counter % 0x100) as u8,
                ).update(
                    0x100 + old(self).stack_pointer.wrapping_sub(2) as int,
                    (old(self).status & 0b1110_1111) | 0b0010_0000,
                )
                &&& final(self).bus == crate::bus::spec_after_tick(
                    Bus {
                        cpu_vram: final(self).bus.cpu_vram,
                        ppu: NesPPU { nmi_interrupt: None, ..old(self).bus.ppu },
                        ..old(self).bus
                    },
                    2,
                )
            }),
    {
        match self.bus.poll_nmi_status() {
            Some(_) => {
                self.interrupt(InterruptType::NMI);
                true
            },
            None => false,
        }
    }

    /// Fetches, decodes and executes one instruction at PC, charges its
    /// cycles to the bus, and steps PC past the instruction unless it wrote
    /// PC itself. BRK only flags the break. Success is owed whenever the
    /// fetch is side-effect-free and the opcode cannot fault.
    #[verifier::rlimit(60)]
    fn fetch_and_execute(&mut self) -> (r: Result<StepInfo, EmuError>)
        requires
            old(self).wf(),
        ensures
            final(self).wf(),
            (spec_pure_readable(old(self).program_counter) && spec_opcode_infallible(
                old(self).bus.spec_pure_read(old(self).program_counter),
            )) ==> r is Ok,
            r matches Ok(info) ==> ({
                &&& crate::opcodes::spec_opcode_known(info.opcode)
                &&& info.brk == (info.opcode == 0x00)
                &&& !info.nmi
                &&& !final(self).bus.frame_pending
                &&& (old(self).bus.frame_pending ==> info.frame)
                &&& spec_pure_readable(old(self).program_counter) ==> info.opcode == old(
                    self).bus.spec_pure_read(old(self).program_counter)
                &&& (!info.brk && !spec_opcode_writes_pc(info.opcode, old(self).status)) ==> final(
                    self).program_counter == old(self).program_counter.wrapping_add(
                    crate::opcodes::spec_opcode_len(info.opcode) as u16,
                )
                &&& info.brk ==> flag_b(final(self).status)
                &&& (info.brk && spec_pure_readable(old(self).program_counter)) ==> *final(self)
                    == (CPU {
                    status: old(self).status | 0b0001_0000,
                    program_counter: old(self).program_counter.wrapping_add(1),
                    bus: Bus { frame_pending: false, ..old(self).bus },
                    ..*old(self)
                })
            }),
    {
        let code = match self.mem_read(self.program_counter) {
            Ok(v) => v,
            Err(e) => {
                return Err(e);
            },
        };
        self.program_counter = self.program_counter.wrapping_add(1);
        let program_counter_state = self.program_counter;

        proof {
            lemma_infallible_is_known(code);
            lemma_single_bit_test(self.status);
        }

        if code == 0x00 {
            // BRK: flag the break and stop the loop
            self.status = self.status | 0b0001_0000;
            let frame = self.bus.take_frame_pending();
            return Ok(StepInfo { opcode: code, nmi: false, brk: true, frame });
        }

        let opcode = match crate::opcodes::opcode_lookup(code) {
            Some(op) => op,
            None => {
                return Err(EmuError::UnknownOpcode(code));
            },
        };

        match self.dispatch_opcode(code, &opcode.mode) {
            Ok(_) => {},
            Err(e) => {
                return Err(e);
            },
        }

        proof {
            crate::opcodes::lemma_opcode_cycles_bound(code);
            crate::opcodes::lemma_opcode_len_bound(code);
        }
        self.bus.tick(opcode.cycles);

        if program_counter_state == self.program_counter {
            self.program_counter = self.program_counter.wrapping_add((opcode.len - 1) as u16);
        }

        let frame = self.bus.take_frame_pending();
        Ok(StepInfo { opcode: code, nmi: false, brk: false, frame })
    }

    /// One iteration of the run loop: service a pending NMI, then fetch and
    /// execute one instruction. The frame flag reports a frame completed
    /// during the iteration (or still latched from an earlier one), and is
    /// consumed here.
    pub fn step(&mut self) -> (r: Result<StepInfo, EmuError>)
        requires
            old(self).wf(),
        ensures
            final(self).wf(),
            (old(self).bus.ppu.nmi_interrupt is None && spec_pure_readable(
                old(self).program_counter,
            ) && spec_opcode_infallible(old(self).bus.spec_pure_read(old(self).program_counter)))
                ==> r is Ok,
            r matches Ok(info) ==> ({
                &&& crate::opcodes::spec_opcode_known(info.opcode)
                &&& info.brk == (info.opcode == 0x00)
                &&& info.nmi == (old(self).bus.ppu.nmi_interrupt is Some)
                &&& !final(self).bus.frame_pending
                &&& (old(self).bus.frame_pending ==> info.frame)
                &&& (!info.nmi && spec_pure_readable(old(self).program_counter)) ==> info.opcode
                    == old(self).bus.spec_pure_read(old(self).program_counter)
                &&& (!info.nmi && !info.brk && !spec_opcode_writes_pc(
                    info.opcode,
                    old(self).status,
                )) ==> final(self).program_counter == old(self).program_counter.wrapping_add(
                    crate::opcodes::spec_opcode_len(info.opcode) as u16,
                )
                &&& info.brk ==> flag_b(final(self).status)
                &&& (!info.nmi && info.brk && spec_pure_readable(old(self).program_counter))
                    ==> *final(self) == (CPU {
                    status: old(self).status | 0b0001_0000,
                    program_counter: old(self).program_counter.wrapping_add(1),
                    bus: Bus { frame_pending: false, ..old(self).bus },
                    ..*old(self)
                })
            }),
    {
        let nmi = self.service_pending_nmi();
        match self.fetch_and_execute() {
            Ok(info) => Ok(StepInfo { nmi, ..info }),
            Err(e) => Err(e),
        }
    }

    /// Runs until BRK or a fault; success leaves the B flag set in the
    /// status. The loop carries a step budget so that it is provably finite;
    /// at any real execution speed the budget outlasts the hardware by
    /// centuries, and running it out is reported as a fault.
    pub fn run(&mut self) -> (r: Result<(), EmuError>)
        requires
            old(self).wf(),
        ensures
            final(self).wf(),
            r is Ok ==> flag_b(final(self).status),
    {
        let mut fuel: u64 = 0xffff_ffff_ffff_ffff;
        while fuel > 0
            invariant
                self.wf(),
            decreases fuel,
        {
            let info = match self.step() {
                Ok(i) => i,
                Err(e) => {
                    return Err(e);
                },
            };
            if info.brk {
                return Ok(());
            }
            fuel = fuel - 1;
        }
        Err(EmuError::StepLimitReached)
    }

    /// Runs until BRK or a fault, handing the CPU to `callback` after the
    /// NMI service and before each fetch; the callback may inspect and
    /// mutate the machine (tracing, input injection) but must keep it
    /// well-formed. The same step budget as `run` bounds the loop.
    pub fn run_with_callback<F: Fn(&mut CPU) -> ()>(&mut self, callback: F) -> (r: Result<
        (),
        EmuError,
    >)
        requires
            old(self).wf(),
            forall|c: &mut CPU| #[trigger] call_requires(callback, (c,)),
            forall|c: &mut CPU| #[trigger] call_ensures(callback, (c,), ()) ==> (mut_ref_current(
                c,
            ).wf() ==> mut_ref_future(c).wf()),
        ensures
            final(self).wf(),
            r is Ok ==> flag_b(final(self).status),
    {
        let mut fuel: u64 = 0xffff_ffff_ffff_ffff;
        while fuel > 0
            invariant
                self.wf(),
                forall|c: &mut CPU| #[trigger] call_requires(callback, (c,)),
                forall|c: &mut CPU| #[trigger] call_ensures(callback, (c,), ()) ==> (
                mut_ref_current(c).wf() ==> mut_ref_future(c).wf()),
            decreases fuel,
        {
            self.service_pending_nmi();
            callback(&mut *self);
            let info = match self.fetch_and_execute() {
                Ok(i) => i,
                Err(e) => {
                    return Err(e);
                },
            };
            if info.brk {
                return Ok(());
            }
            fuel = fuel - 1;
        }
        Err(EmuError::StepLimitReached)
    }

    /// Test helper: loads a program into work RAM, resets, points PC at it
    /// and runs to BRK; success leaves the B flag set.
    pub fn load_and_run(&mut self, program: Vec<u8>) -> (r: Result<(), EmuError>)
        requires
            old(self).wf(),
            program@.len() <= 0x200,
        ensures
            final(self).wf(),
            r is Ok ==> flag_b(final(self).status),
    {
        self.load(program);
        self.reset();
        self.program_counter = 0x0600;
        self.run()
    }

}

/// Stack-pointer law: the pointer after a sequence of pushes.
pub open spec fn spec_sp_after_pushes(sp: u8, n: nat) -> u8
    decreases n,
{
    if n == 0 {
        sp
    } else {
        spec_sp_after_pushes(sp, (n - 1) as nat).wrapping_sub(1)
    }
}

/// After any sequence of `n` pushes, each of which decrements the stack
/// pointer once, the pointer equals its start minus `n`, modulo 256.
pub proof fn lemma_stack_pushes_decrement(sp: u8, n: nat)
    ensures
        spec_sp_after_pushes(sp, n) == ((sp - n) % 256) as u8,
    decreases n,
{
    if n > 0 {
        lemma_stack_pushes_decrement(sp, (n - 1) as nat);
        let x = sp - (n - 1);
        vstd::arithmetic::div_mod::lemma_fundamental_div_mod(x, 256);
        if x % 256 > 0 {
            vstd::arithmetic::div_mod::lemma_fundamental_div_mod_converse(
                x - 1,
                256,
                x / 256,
                x % 256 - 1,
            );
        } else {
            vstd::arithmetic::div_mod::lemma_fundamental_div_mod_converse(
                x - 1,
                256,
                x / 256 - 1,
                255,
            );
        }
    }
}

/// Round-trip law: pushing the status with PHP and pulling it with PLP
/// restores it with bit 5 forced on and bit 4 forced off, and the pull
/// brings the stack pointer back to its pre-push value.
pub proof fn lemma_php_plp_round_trip(p: u8, sp: u8)
    ensures
        spec_plp_value(p | 0b0001_0000) == (p | 0b0010_0000) & 0b1110_1111,
        flag_b(spec_plp_value(p | 0b0001_0000)) == false,
        spec_plp_value(p | 0b0001_0000) & 0b0010_0000 == 0b0010_0000,
        sp.wrapping_sub(1).wrapping_add(1) == sp,
{
    assert(spec_plp_value(p | 0b0001_0000) == (p | 0b0010_0000) & 0b1110_1111) by (bit_vector);
    assert(((p | 0b0010_0000) & 0b1110_1111) & 0b0001_0000 == 0) by (bit_vector);
    assert(((p | 0b0010_0000) & 0b1110_1111) & 0b0010_0000 == 0b0010_0000) by (bit_vector);
}

/// Addition law: the flags the ADC core reports, read from its status
/// formula — the result is the 9-bit sum of the accumulator, the operand
/// and the carry, reduced modulo 256; C holds exactly when that sum reached
/// 256; V follows the signed-overflow formula; Z and N come from the result.
/// SBC obeys the same law applied to the bitwise-negated operand.
pub proof fn lemma_adc_flags(s: u8, a: u8, data: u8)
    ensures
        ({
            let carry0: int = if flag_c(s) {
                1
            } else {
                0
            };
            let result = spec_adc_result(a, data, s);
            &&& result == (a + data + carry0) % 256
            &&& flag_c(spec_adc_status(s, a, data)) == (a + data + carry0 >= 256)
            &&& flag_v(spec_adc_status(s, a, data)) == ((data ^ result) & (result ^ a) & 0x80 != 0)
            &&& flag_z(spec_adc_status(s, a, data)) == (result == 0)
            &&& flag_n(spec_adc_status(s, a, data)) == (result >= 0x80)
        }),
{
    let sum = a + data + (s & 1);
    let result = (sum % 256) as u8;
    let s1 = if sum > 0xff {
        s | 0b0000_0001
    } else {
        s & 0b1111_1110
    };
    let s2 = if (data ^ result) & (result ^ a) & 0x80 != 0 {
        s1 | 0b0100_0000
    } else {
        s1 & 0b1011_1111
    };
    lemma_carry_overflow_bits(s);
    lemma_carry_overflow_bits(s1);
    lemma_carry_overflow_bits(s2);
    lemma_update_zn_flags(s2, result);
}

/// Comparison law: after CMP, CPX or CPY, C holds exactly when the register
/// is at least the operand, Z exactly when they are equal, and N copies bit
/// 7 of their wrapping difference.
pub proof fn lemma_compare_flags(s: u8, reg: u8, v: u8)
    ensures
        flag_c(spec_compare_status(s, reg, v)) == (reg >= v),
        flag_z(spec_compare_status(s, reg, v)) == (reg == v),
        flag_n(spec_compare_status(s, reg, v)) == (reg.wrapping_sub(v) >= 0x80),
{
    let s1 = if reg >= v {
        s | 0b0000_0001
    } else {
        s & 0b1111_1110
    };
    lemma_update_zn_flags(s1, reg.wrapping_sub(v));
    lemma_carry_overflow_bits(s);
}

} // verus!
