//! The memory bus: 2 KiB of CPU RAM, the PPU, the program-ROM view and the
//! two controllers, with every CPU address mapped to its device and its side
//! effects. The bus clocks the PPU at three dots per CPU cycle and latches a
//! frame event at each rising edge of the NMI line.

use crate::bitmath::lemma_u16_mask_facts;
use crate::cartridge::{Mirroring, Rom};
use crate::errors::EmuError;
use crate::joypads::{spec_read_step, spec_read_value, Joypad};
use crate::ppu::controller::ControlRegister;
use crate::ppu::mask::MaskRegister;
use crate::ppu::{spec_after_status_read, spec_mirror_vram_addr, spec_palette_index, spec_tick,
    NesPPU};
use vstd::prelude::*;

verus! {

pub struct Bus {
    pub cpu_vram: [u8; 2048],
    pub prg_rom: Vec<u8>,
    pub ppu: NesPPU,
    pub cycles: usize,
    pub frame_pending: bool,
    pub joypad1: Joypad,
    pub joypad2: Joypad,
}

/// Addresses whose reads have no side effect on any device: RAM, the ROM
/// view, and the unmapped or stubbed ranges that read as zero.
pub open spec fn spec_pure_readable(addr: u16) -> bool {
    ||| addr < 0x2000
    ||| (0x4000 <= addr < 0x8000 && addr != 0x4014 && addr != 0x4016 && addr != 0x4017)
    ||| addr >= 0x8000
}

/// Addresses whose reads are refused: the write-only PPU registers (through
/// their mirrors) and the OAM DMA port.
pub open spec fn spec_read_forbidden(addr: u16) -> bool {
    ||| (0x2000 <= addr < 0x4000 && (addr % 8 == 0 || addr % 8 == 1 || addr % 8 == 3 || addr % 8
        == 5 || addr % 8 == 6))
    ||| addr == 0x4014
}

/// Writes the bus refuses: the read-only STATUS register (through its
/// mirrors), cartridge ROM, and an OAM DMA whose source page overlaps the
/// write-only registers or the DMA port itself.
pub open spec fn spec_write_refused(addr: u16, data: u8) -> bool {
    ||| (0x2000 <= addr < 0x4000 && addr % 8 == 2)
    ||| addr >= 0x8000
    ||| (addr == 0x4014 && 0x20 <= data <= 0x40)
}

/// The fault a refused write reports, naming the offending address; a
/// refused DMA names the first source byte whose read is forbidden.
pub open spec fn spec_write_error(addr: u16, data: u8) -> EmuError {
    if 0x2000 <= addr < 0x4000 && addr % 8 == 2 {
        EmuError::StatusWrite(addr)
    } else if addr >= 0x8000 {
        EmuError::RomWrite(addr)
    } else if data <= 0x3f {
        EmuError::WriteOnlyRead((data * 256) as u16)
    } else {
        EmuError::WriteOnlyRead(0x4014)
    }
}

/// The byte at `addr` in the program-ROM view: a 16 KiB image is mirrored
/// into the upper half of `$8000-$FFFF`.
pub open spec fn spec_read_prg(prg: Seq<u8>, addr: u16) -> u8
    recommends
        addr >= 0x8000,
        prg.len() == 0x4000 || prg.len() == 0x8000,
{
    let offset = addr - 0x8000;
    if prg.len() == 0x4000 && offset >= 0x4000 {
        prg[offset % 0x4000]
    } else {
        prg[offset as int]
    }
}

/// The bus after one `tick` of `cycles` CPU cycles: the cycle counter
/// accumulates, the PPU advances by three dots per cycle, and a rising edge
/// of the NMI latch marks the frame event.
pub open spec fn spec_after_tick(b: Bus, cycles: u8) -> Bus {
    let p2 = spec_tick(b.ppu, (3 * cycles) as u8).0;
    Bus {
        cycles: b.cycles.wrapping_add(cycles as usize),
        ppu: p2,
        frame_pending: b.frame_pending || (b.ppu.nmi_interrupt is None
            && p2.nmi_interrupt is Some),
        ..b
    }
}

impl Bus {
    /// A bus is built over a mapper-0 cartridge: 16 or 32 KiB of program
    /// ROM, 8 KiB of character ROM, and two-bank name-table mirroring.
    pub open spec fn wf(self) -> bool {
        &&& self.prg_rom@.len() == 0x4000 || self.prg_rom@.len() == 0x8000
        &&& self.ppu.wf()
        &&& self.ppu.chr_rom@.len() == 0x2000
        &&& self.ppu.mirroring != Mirroring::FOUR_SCREEN
    }

    /// The value a side-effect-free read returns.
    pub open spec fn spec_pure_read(self, addr: u16) -> u8
        recommends
            spec_pure_readable(addr),
    {
        if addr < 0x2000 {
            self.cpu_vram@[(addr % 0x800) as int]
        } else if addr >= 0x8000 {
            spec_read_prg(self.prg_rom@, addr)
        } else {
            0
        }
    }

    /// A side-effect-free little-endian u16 read at `pos` and `pos + 1`.
    pub open spec fn spec_pure_read_u16(self, pos: u16) -> int {
        self.spec_pure_read(pos.wrapping_add(1)) * 256 + self.spec_pure_read(pos)
    }

    pub fn new(rom: Rom) -> (r: Bus)
        requires
            rom.prg_rom@.len() == 0x4000 || rom.prg_rom@.len() == 0x8000,
            rom.chr_rom@.len() == 0x2000,
            rom.screen_mirroring != Mirroring::FOUR_SCREEN,
        ensures
            r.wf(),
            r.cpu_vram@ == Seq::<u8>::new(2048, |i: int| 0u8),
            r.prg_rom@ == rom.prg_rom@,
            r.ppu.spec_is_new(r.ppu.chr_rom, rom.screen_mirroring),
            r.ppu.chr_rom@ == rom.chr_rom@,
            r.cycles == 0,
            !r.frame_pending,
            !r.joypad1.strobe && r.joypad1.button_index == 0 && r.joypad1.button_status == 0,
            !r.joypad2.strobe && r.joypad2.button_index == 0 && r.joypad2.button_status == 0,
    {
        broadcast use vstd::array::axiom_spec_array_fill_for_copy_type;

        let ppu = NesPPU::new(rom.chr_rom, rom.screen_mirroring);
        let r = Bus {
            cpu_vram: [0u8; 2048],
            prg_rom: rom.prg_rom,
            ppu: ppu,
            cycles: 0,
            frame_pending: false,
            joypad1: Joypad::new(),
            joypad2: Joypad::new(),
        };
        proof {
            assert(r.cpu_vram@ =~= Seq::<u8>::new(2048, |i: int| 0u8));
        }
        r
    }

    /// Advances the whole machine by `cycles` CPU cycles: the PPU moves by
    /// three dots per cycle, and a rising edge of the NMI latch marks a
    /// frame event for the host.
    pub fn tick(&mut self, cycles: u8)
        requires
            old(self).wf(),
            cycles <= 85,
        ensures
            final(self).wf(),
            final(self).cycles == old(self).cycles.wrapping_add(cycles as usize),
            *final(self) == spec_after_tick(*old(self), cycles),
            final(self).ppu == spec_tick(old(self).ppu, (3 * cycles) as u8).0,
            final(self).frame_pending == (old(self).frame_pending || (old(
                self,
            ).ppu.nmi_interrupt is None && final(self).ppu.nmi_interrupt is Some)),
            *final(self) == (Bus {
                cycles: final(self).cycles,
                ppu: final(self).ppu,
                frame_pending: final(self).frame_pending,
                ..*old(self)
            }),
    {
        self.cycles = self.cycles.wrapping_add(cycles as usize);
        let nmi_before = self.ppu.nmi_interrupt.is_some();
        self.ppu.tick(cycles * 3);
        let nmi_after = self.ppu.nmi_interrupt.is_some();

        if !nmi_before && nmi_after {
            self.frame_pending = true;
        }
    }

    /// Hands the CPU the pending NMI, clearing the latch.
    pub fn poll_nmi_status(&mut self) -> (r: Option<u8>)
        ensures
            r == old(self).ppu.nmi_interrupt,
            final(self).ppu.nmi_interrupt is None,
            final(self).ppu == (NesPPU { nmi_interrupt: None, ..old(self).ppu }),
            *final(self) == (Bus { ppu: final(self).ppu, ..*old(self) }),
    {
        let r = self.ppu.nmi_interrupt;
        self.ppu.nmi_interrupt = None;
        r
    }

    /// Hands the host the pending frame event, clearing it.
    pub fn take_frame_pending(&mut self) -> (r: bool)
        ensures
            r == old(self).frame_pending,
            !final(self).frame_pending,
            *final(self) == (Bus { frame_pending: false, ..*old(self) }),
    {
        let r = self.frame_pending;
        self.frame_pending = false;
        r
    }

    fn read_prg_rom(&self, addr: u16) -> (r: u8)
        requires
            self.wf(),
            addr >= 0x8000,
        ensures
            r == spec_read_prg(self.prg_rom@, addr),
    {
        let mut offset = addr - 0x8000;
        if self.prg_rom.len() == 0x4000 && offset >= 0x4000 {
            offset = offset % 0x4000;
        }
        self.prg_rom[offset as usize]
    }

    /// One CPU read. RAM and ROM reads are pure; the readable PPU registers
    /// perform their documented side effects; reads of write-only registers
    /// are refused.
    pub fn mem_read(&mut self, addr: u16) -> (r: Result<u8, EmuError>)
        requires
            old(self).wf(),
        ensures
            final(self).wf(),
            final(self).cpu_vram@ == old(self).cpu_vram@,
            final(self).prg_rom@ == old(self).prg_rom@,
            final(self).cycles == old(self).cycles,
            final(self).frame_pending == old(self).frame_pending,
            r is Err <==> spec_read_forbidden(addr),
            spec_pure_readable(addr) ==> (r == Ok::<u8, EmuError>(old(self).spec_pure_read(addr)) && *final(self)
                == *old(self)),
            spec_read_forbidden(addr) ==> (r == Err::<u8, EmuError>(EmuError::WriteOnlyRead(addr)) && *final(self)
                == *old(self)),
            (0x2000 <= addr < 0x4000 && addr % 8 == 2) ==> (r == Ok::<u8, EmuError>(old(self).ppu.status.bits)
                && *final(self) == (Bus { ppu: spec_after_status_read(old(self).ppu), ..*old(self) })),
            (0x2000 <= addr < 0x4000 && addr % 8 == 4) ==> (r == Ok::<u8, EmuError>(
                old(self).ppu.oam_data@[old(self).ppu.oam_addr as int],
            ) && *final(self) == *old(self)),
            (0x2000 <= addr < 0x4000 && addr % 8 == 7) ==> ({
                let a = old(self).ppu.addr.spec_get() as u16;
                let p0 = old(self).ppu;
                let p1 = final(self).ppu;
                &&& *final(self) == (Bus { ppu: p1, ..*old(self) })
                &&& p1.addr.spec_get() == (p0.addr.spec_get()
                    + p0.ctrl.spec_vram_addr_increment()) % 0x4000
                &&& p1.addr.hi_ptr == p0.addr.hi_ptr
                &&& a < 0x2000 ==> (r == Ok::<u8, EmuError>(p0.internal_data_buf) && p1.internal_data_buf
                    == p0.chr_rom@[a as int])
                &&& 0x2000 <= a < 0x3f00 ==> (r == Ok::<u8, EmuError>(p0.internal_data_buf)
                    && p1.internal_data_buf == p0.vram@[spec_mirror_vram_addr(p0.mirroring, a)])
                &&& 0x3f00 <= a ==> (r == Ok::<u8, EmuError>(p0.palette_table@[spec_palette_index(a)])
                    && p1.internal_data_buf == p0.vram@[spec_mirror_vram_addr(p0.mirroring, a)])
                &&& p1.vram@ == p0.vram@
                &&& p1.palette_table@ == p0.palette_table@
                &&& p1.spec_port_untouched(p0)
            }),
            addr == 0x4016 ==> (r == Ok::<u8, EmuError>(spec_read_value(old(self).joypad1)) && *final(self) == (
            Bus { joypad1: spec_read_step(old(self).joypad1), ..*old(self) })),
            addr == 0x4017 ==> (r == Ok::<u8, EmuError>(spec_read_value(old(self).joypad2)) && *final(self) == (
            Bus { joypad2: spec_read_step(old(self).joypad2), ..*old(self) })),
    {
        if addr < 0x2000 {
            proof {
                lemma_u16_mask_facts(addr);
            }
            let mirror_down_addr = addr & 0b0000_0111_1111_1111;
            Ok(self.cpu_vram[mirror_down_addr as usize])
        } else if addr < 0x4000 {
            proof {
                lemma_u16_mask_facts(addr);
            }
            let reg = addr & 0b111;
            if reg == 0 || reg == 1 || reg == 3 || reg == 5 || reg == 6 {
                Err(EmuError::WriteOnlyRead(addr))
            } else if reg == 2 {
                Ok(self.ppu.read_status())
            } else if reg == 4 {
                Ok(self.ppu.read_oam_data())
            } else {
                Ok(self.ppu.read_data())
            }
        } else if addr == 0x4014 {
            Err(EmuError::WriteOnlyRead(addr))
        } else if addr <= 0x4015 {
            // the APU is stubbed: its range reads as zero
            Ok(0)
        } else if addr == 0x4016 {
            Ok(self.joypad1.read())
        } else if addr == 0x4017 {
            Ok(self.joypad2.read())
        } else if addr >= 0x8000 {
            Ok(self.read_prg_rom(addr))
        } else {
            // unmapped addresses read as zero
            Ok(0)
        }
    }

    /// Little-endian u16 read: the low byte at `pos`, the high byte above it.
    pub fn mem_read_u16(&mut self, pos: u16) -> (r: Result<u16, EmuError>)
        requires
            old(self).wf(),
        ensures
            final(self).wf(),
            spec_pure_readable(pos) && spec_pure_readable(pos.wrapping_add(1)) ==> (r == Ok::<u16, EmuError>(
                old(self).spec_pure_read_u16(pos) as u16,
            ) && *final(self) == *old(self)),
            r is Err <==> (spec_read_forbidden(pos) || spec_read_forbidden(pos.wrapping_add(1))),
            spec_read_forbidden(pos) ==> (r == Err::<u16, EmuError>(EmuError::WriteOnlyRead(pos))
                && *final(self) == *old(self)),
            (!spec_read_forbidden(pos) && spec_read_forbidden(pos.wrapping_add(1))) ==> r == Err::<
                u16,
                EmuError,
            >(EmuError::WriteOnlyRead(pos.wrapping_add(1))),
            final(self).cpu_vram@ == old(self).cpu_vram@,
            final(self).prg_rom@ == old(self).prg_rom@,
            final(self).cycles == old(self).cycles,
            final(self).frame_pending == old(self).frame_pending,
    {
        let lo = match self.mem_read(pos) {
            Ok(v) => v,
            Err(e) => {
                return Err(e);
            },
        };
        let hi = match self.mem_read(pos.wrapping_add(1)) {
            Ok(v) => v,
            Err(e) => {
                return Err(e);
            },
        };
        Ok((hi as u16) * 256 + (lo as u16))
    }

    /// One CPU write. RAM writes land under the 2 KiB mirror mask, the PPU
    /// registers perform their documented effects, `$4014` runs the OAM DMA,
    /// `$4016` strobes both controllers; writes to STATUS and to ROM are
    /// refused.
    pub fn mem_write(&mut self, addr: u16, data: u8) -> (r: Result<(), EmuError>)
        requires
            old(self).wf(),
        ensures
            final(self).wf(),
            final(self).prg_rom@ == old(self).prg_rom@,
            final(self).cycles == old(self).cycles,
            final(self).frame_pending == old(self).frame_pending,
            r is Err <==> spec_write_refused(addr, data),
            r is Err ==> (r == Err::<(), EmuError>(spec_write_error(addr, data)) && *final(self)
                == *old(self)),
            addr < 0x2000 ==> (final(self).cpu_vram@ == old(self).cpu_vram@.update(
                (addr % 0x800) as int,
                data,
            ) && *final(self) == (Bus { cpu_vram: final(self).cpu_vram, ..*old(self) })),
            (0x2000 <= addr < 0x4000 && addr % 8 == 0) ==> *final(self) == (Bus {
                ppu: NesPPU { ctrl: ControlRegister { bits: data }, ..old(self).ppu },
                ..*old(self)
            }),
            (0x2000 <= addr < 0x4000 && addr % 8 == 1) ==> *final(self) == (Bus {
                ppu: NesPPU { mask: MaskRegister { bits: data }, ..old(self).ppu },
                ..*old(self)
            }),
            (0x2000 <= addr < 0x4000 && addr % 8 == 3) ==> *final(self) == (Bus {
                ppu: NesPPU { oam_addr: data, ..old(self).ppu },
                ..*old(self)
            }),
            (0x2000 <= addr < 0x4000 && addr % 8 == 4) ==> ({
                &&& final(self).ppu.oam_data@ == old(self).ppu.oam_data@.update(
                    old(self).ppu.oam_addr as int,
                    data,
                )
                &&& final(self).ppu.oam_addr == old(self).ppu.oam_addr.wrapping_add(1)
                &&& final(self).ppu == (NesPPU {
                    oam_data: final(self).ppu.oam_data,
                    oam_addr: final(self).ppu.oam_addr,
                    ..old(self).ppu
                })
                &&& *final(self) == (Bus { ppu: final(self).ppu, ..*old(self) })
            }),
            (0x2000 <= addr < 0x4000 && addr % 8 == 5) ==> *final(self) == (Bus {
                ppu: NesPPU {
                    scroll: crate::ppu::scroll::spec_scroll_write(old(self).ppu.scroll, data),
                    ..old(self).ppu
                },
                ..*old(self)
            }),
            (0x2000 <= addr < 0x4000 && addr % 8 == 6) ==> ({
                &&& final(self).ppu.addr.spec_get() == if old(self).ppu.addr.hi_ptr {
                    (data * 256 + old(self).ppu.addr.value.1) % 0x4000
                } else {
                    (old(self).ppu.addr.value.0 * 256 + data) % 0x4000
                }
                &&& final(self).ppu.addr.hi_ptr == !old(self).ppu.addr.hi_ptr
                &&& final(self).ppu == (NesPPU { addr: final(self).ppu.addr, ..old(self).ppu })
                &&& *final(self) == (Bus { ppu: final(self).ppu, ..*old(self) })
            }),
            (0x2000 <= addr < 0x4000 && addr % 8 == 7) ==> ({
                let a = old(self).ppu.addr.spec_get() as u16;
                let p0 = old(self).ppu;
                let p1 = final(self).ppu;
                &&& *final(self) == (Bus { ppu: p1, ..*old(self) })
                &&& p1.addr.spec_get() == (p0.addr.spec_get()
                    + p0.ctrl.spec_vram_addr_increment()) % 0x4000
                &&& p1.addr.hi_ptr == p0.addr.hi_ptr
                &&& a < 0x2000 ==> (p1.vram@ == p0.vram@ && p1.palette_table@ == p0.palette_table@)
                &&& 0x2000 <= a < 0x3f00 ==> (p1.vram@ == p0.vram@.update(
                    spec_mirror_vram_addr(p0.mirroring, a),
                    data,
                ) && p1.palette_table@ == p0.palette_table@)
                &&& 0x3f00 <= a ==> (p1.palette_table@ == p0.palette_table@.update(
                    spec_palette_index(a),
                    data,
                ) && p1.vram@ == p0.vram@)
                &&& p1.internal_data_buf == p0.internal_data_buf
                &&& p1.spec_port_untouched(p0)
            }),
            (addr == 0x4014 && r is Ok) ==> ({
                &&& forall|i: int|
                    0 <= i < 256 ==> final(self).ppu.oam_data@[(old(self).ppu.oam_addr + i) % 256]
                        == old(self).spec_pure_read(#[trigger] ((data * 256 + i) as u16))
                &&& final(self).ppu.oam_addr == old(self).ppu.oam_addr
                &&& final(self).ppu == (NesPPU {
                    oam_data: final(self).ppu.oam_data,
                    ..old(self).ppu
                })
                &&& *final(self) == (Bus { ppu: final(self).ppu, ..*old(self) })
            }),
            addr == 0x4016 ==> *final(self) == (Bus {
                joypad1: crate::joypads::spec_write(old(self).joypad1, data),
                joypad2: crate::joypads::spec_write(old(self).joypad2, data),
                ..*old(self)
            }),
            (0x4000 <= addr < 0x8000 && addr != 0x4014 && addr != 0x4016) ==> *final(self) == *old(
                self,
            ),
    {
        if addr < 0x2000 {
            proof {
                lemma_u16_mask_facts(addr);
            }
            let mirror_down_addr = addr & 0b0000_0111_1111_1111;
            self.cpu_vram[mirror_down_addr as usize] = data;
            proof {
                assert(*self == (Bus { cpu_vram: self.cpu_vram, ..*old(self) }));
            }
            Ok(())
        } else if addr < 0x4000 {
            proof {
                lemma_u16_mask_facts(addr);
            }
            let reg = addr & 0b111;
            if reg == 0 {
                self.ppu.write_to_ctrl(data);
                Ok(())
            } else if reg == 1 {
                self.ppu.write_to_mask(data);
                Ok(())
            } else if reg == 2 {
                Err(EmuError::StatusWrite(addr))
            } else if reg == 3 {
                self.ppu.write_to_oam_addr(data);
                Ok(())
            } else if reg == 4 {
                self.ppu.write_to_oam_data(data);
                Ok(())
            } else if reg == 5 {
                self.ppu.write_to_scroll(data);
                Ok(())
            } else if reg == 6 {
                self.ppu.write_to_ppu_addr(data);
                Ok(())
            } else {
                self.ppu.write_to_data(data);
                Ok(())
            }
        } else if addr == 0x4014 {
            // OAM DMA: copy one 256-byte page into PPU OAM. A source page
            // overlapping the PPU registers or the DMA port itself would hit
            // a forbidden read at the address reported here.
            if 0x20 <= data && data <= 0x3f {
                return Err(EmuError::WriteOnlyRead((data as u16) * 256));
            }
            if data == 0x40 {
                return Err(EmuError::WriteOnlyRead(0x4014));
            }
            let hi: u16 = (data as u16) * 256;
            let mut buffer: [u8; 256] = [0u8; 256];
            let mut i: usize = 0;
            while i < 256
                invariant
                    self.wf(),
                    *self == *old(self),
                    i <= 256,
                    hi == data * 256,
                    data <= 0x1f || data >= 0x41,
                    forall|j: int|
                        0 <= j < i ==> buffer@[j] == old(self).spec_pure_read(
                            (data * 256 + j) as u16,
                        ),
                decreases 256 - i,
            {
                let a = hi + (i as u16);
                let b = match self.mem_read(a) {
                    Ok(v) => v,
                    Err(e) => {
                        return Err(e);
                    },
                };
                buffer[i] = b;
                i += 1;
            }
            let ghost pre_dma = *self;
            self.ppu.write_oam_dma(&buffer);
            proof {
                assert forall|j: int| 0 <= j < 256 implies self.ppu.oam_data@[(old(self).ppu.oam_addr
                    + j) % 256] == old(self).spec_pure_read(#[trigger] ((data * 256 + j) as u16)) by {
                    assert(self.ppu.oam_data@[(pre_dma.ppu.oam_addr + j) % 256] == buffer@[j]);
                }
            }
            Ok(())
        } else if addr == 0x4016 {
            self.joypad1.write(data);
            self.joypad2.write(data);
            Ok(())
        } else if addr >= 0x8000 {
            Err(EmuError::RomWrite(addr))
        } else {
            // APU range, the second controller port, and unmapped addresses:
            // the write is discarded
            Ok(())
        }
    }

    /// Little-endian u16 write: the low byte at `pos`, the high byte above
    /// it.
    pub fn mem_write_u16(&mut self, pos: u16, data: u16) -> (r: Result<(), EmuError>)
        requires
            old(self).wf(),
        ensures
            final(self).wf(),
            final(self).prg_rom@ == old(self).prg_rom@,
            final(self).cycles == old(self).cycles,
            final(self).frame_pending == old(self).frame_pending,
            (pos < 0x2000 && pos.wrapping_add(1) < 0x2000) ==> (r is Ok && final(self).cpu_vram@
                == old(self).cpu_vram@.update((pos % 0x800) as int, (data % 0x100) as u8).update(
                (pos.wrapping_add(1) % 0x800) as int,
                (data / 0x100) as u8,
            ) && *final(self) == (Bus { cpu_vram: final(self).cpu_vram, ..*old(self) })),
            r is Err <==> (spec_write_refused(pos, (data % 0x100) as u8) || spec_write_refused(
                pos.wrapping_add(1),
                (data / 0x100) as u8,
            )),
            spec_write_refused(pos, (data % 0x100) as u8) ==> (r == Err::<(), EmuError>(
                spec_write_error(pos, (data % 0x100) as u8),
            ) && *final(self) == *old(self)),
            (!spec_write_refused(pos, (data % 0x100) as u8) && spec_write_refused(
                pos.wrapping_add(1),
                (data / 0x100) as u8,
            )) ==> r == Err::<(), EmuError>(
                spec_write_error(pos.wrapping_add(1), (data / 0x100) as u8),
            ),
    {
        let hi = (data / 0x100) as u8;
        let lo = (data % 0x100) as u8;
        match self.mem_write(pos, lo) {
            Ok(_) => {},
            Err(e) => {
                return Err(e);
            },
        }
        match self.mem_write(pos.wrapping_add(1), hi) {
            Ok(_) => {},
            Err(e) => {
                return Err(e);
            },
        }
        Ok(())
    }
}


/// RAM mirroring law: two addresses below `$2000` that agree under the
/// 2 KiB mask read the same byte, and a write through either lands on the
/// same cell.
pub proof fn lemma_ram_mirroring(b: Bus, addr1: u16, addr2: u16, data: u8)
    requires
        addr1 < 0x2000,
        addr2 < 0x2000,
        addr1 % 0x800 == addr2 % 0x800,
    ensures
        b.spec_pure_read(addr1) == b.spec_pure_read(addr2),
        b.cpu_vram@.update((addr1 % 0x800) as int, data) == b.cpu_vram@.update(
            (addr2 % 0x800) as int,
            data,
        ),
{
}

} // verus!
