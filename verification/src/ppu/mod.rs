//! The 2C02 picture processing unit: VRAM, palette and OAM memory, the CPU-
//! visible registers, and the dot/scanline clock that raises the vertical-
//! blank NMI.

pub mod address;
pub mod controller;
pub mod mask;
pub mod scroll;
pub mod status;

use crate::cartridge::Mirroring;
use address::AddrRegister;
use controller::ControlRegister;
use mask::MaskRegister;
use scroll::ScrollRegister;
use status::StatusRegister;
use vstd::prelude::*;

verus! {

pub struct NesPPU {
    pub chr_rom: Vec<u8>,
    pub palette_table: [u8; 32],
    pub vram: [u8; 2048],
    pub oam_data: [u8; 256],
    pub mirroring: Mirroring,
    pub internal_data_buf: u8,
    pub addr: AddrRegister,
    pub ctrl: ControlRegister,
    pub mask: MaskRegister,
    pub oam_addr: u8,
    pub scroll: ScrollRegister,
    pub status: StatusRegister,
    pub scanline: u16,
    pub cycles: usize,
    pub nmi_interrupt: Option<u8>,
}

/// Maps a logical name-table address (`$2000-$3FFF`, the `$3000` range taken
/// as its `$2000` alias) to an offset into the 2 KiB of physical VRAM, per
/// the cartridge mirroring kind.
pub open spec fn spec_mirror_vram_addr(mirroring: Mirroring, addr: u16) -> int
    recommends
        0x2000 <= addr < 0x4000,
{
    let mirrored = if addr >= 0x3000 {
        addr - 0x1000
    } else {
        addr as int
    };
    let index = mirrored - 0x2000;
    let name_table = index / 0x400;
    if mirroring == Mirroring::VERTICAL && (name_table == 2 || name_table == 3) {
        index - 0x800
    } else if mirroring == Mirroring::HORIZONTAL && (name_table == 1 || name_table == 2) {
        index - 0x400
    } else if mirroring == Mirroring::HORIZONTAL && name_table == 3 {
        index - 0x800
    } else {
        index
    }
}

/// Offset into the 32-byte palette for a data-port access at `addr` in
/// `$3F00-$3FFF`: the table repeats every 32 bytes and the four sprite
/// mirrors `$3F10/$3F14/$3F18/$3F1C` alias their background entries.
pub open spec fn spec_palette_index(addr: u16) -> int
    recommends
        0x3f00 <= addr < 0x4000,
{
    if addr == 0x3f10 || addr == 0x3f14 || addr == 0x3f18 || addr == 0x3f1c {
        addr - 0x3f10
    } else {
        (addr - 0x3f00) % 0x20
    }
}

/// The PPU state after advancing by `dots` dots, with the frame-complete
/// flag; the memories, registers and latches are untouched.
pub open spec fn spec_tick(p: NesPPU, dots: u8) -> (NesPPU, bool) {
    let crossed = p.cycles + dots >= 341;
    let wrapped = crossed && p.scanline == 261;
    let entered_vblank = crossed && p.scanline == 240;
    (
        NesPPU {
            cycles: (if crossed {
                p.cycles + dots - 341
            } else {
                p.cycles + dots
            }) as usize,
            scanline: (if wrapped {
                0int
            } else if crossed {
                p.scanline + 1
            } else {
                p.scanline as int
            }) as u16,
            status: StatusRegister {
                bits: if wrapped {
                    (p.status.bits & 0b1011_1111) & 0b0111_1111
                } else if entered_vblank {
                    (p.status.bits | 0b1000_0000) & 0b1011_1111
                } else {
                    p.status.bits
                },
            },
            nmi_interrupt: if wrapped {
                None
            } else if entered_vblank && p.ctrl.spec_generate_vblank_nmi() {
                Some(1u8)
            } else {
                p.nmi_interrupt
            },
            ..p
        },
        wrapped,
    )
}

/// The PPU state a STATUS read leaves behind: vertical blank cleared, both
/// write latches rewound.
pub open spec fn spec_after_status_read(p: NesPPU) -> NesPPU {
    NesPPU {
        status: StatusRegister { bits: p.status.bits & 0b0111_1111 },
        addr: AddrRegister { hi_ptr: true, ..p.addr },
        scroll: ScrollRegister { scroll_switch: false, ..p.scroll },
        ..p
    }
}

impl NesPPU {
    /// The PPU clock position inside the current frame, in dots.
    pub open spec fn spec_total_dots(self) -> int {
        self.scanline * 341 + self.cycles
    }

    pub open spec fn wf(self) -> bool {
        &&& self.cycles < 341
        &&& self.scanline < 262
        &&& self.addr.wf()
    }

    /// All state a data-port access never touches.
    pub open spec fn spec_port_untouched(self, other: NesPPU) -> bool {
        &&& self.chr_rom@ == other.chr_rom@
        &&& self.oam_data@ == other.oam_data@
        &&& self.oam_addr == other.oam_addr
        &&& self.mirroring == other.mirroring
        &&& self.ctrl == other.ctrl
        &&& self.mask == other.mask
        &&& self.scroll == other.scroll
        &&& self.status == other.status
        &&& self.scanline == other.scanline
        &&& self.cycles == other.cycles
        &&& self.nmi_interrupt == other.nmi_interrupt
    }

    pub fn new_empty_rom() -> (r: NesPPU)
        ensures
            r.wf(),
            r.mirroring == Mirroring::HORIZONTAL,
            r.chr_rom@ == Seq::<u8>::new(2048, |i: int| 0u8),
            r.spec_is_new(r.chr_rom, Mirroring::HORIZONTAL),
    {
        let mut chr: Vec<u8> = Vec::new();
        let mut i: usize = 0;
        while i < 2048
            invariant
                i <= 2048,
                chr@ == Seq::<u8>::new(i as nat, |j: int| 0u8),
            decreases 2048 - i,
        {
            chr.push(0);
            i += 1;
            proof {
                assert(chr@ =~= Seq::<u8>::new(i as nat, |j: int| 0u8));
            }
        }
        NesPPU::new(chr, Mirroring::HORIZONTAL)
    }

    /// The freshly powered-on PPU state for a given character ROM and
    /// mirroring: every memory cleared, every register zero, both latches at
    /// their initial position.
    pub open spec fn spec_is_new(self, chr_rom: Vec<u8>, mirroring: Mirroring) -> bool {
        &&& self.chr_rom@ == chr_rom@
        &&& self.mirroring == mirroring
        &&& self.vram@ == Seq::<u8>::new(2048, |i: int| 0u8)
        &&& self.oam_data@ == Seq::<u8>::new(256, |i: int| 0u8)
        &&& self.palette_table@ == Seq::<u8>::new(32, |i: int| 0u8)
        &&& self.internal_data_buf == 0
        &&& self.addr == (AddrRegister { value: (0u8, 0u8), hi_ptr: true })
        &&& self.ctrl == (ControlRegister { bits: 0u8 })
        &&& self.mask == (MaskRegister { bits: 0u8 })
        &&& self.oam_addr == 0
        &&& self.scroll == (ScrollRegister { scroll_x: 0u8, scroll_y: 0u8, scroll_switch: false })
        &&& self.status == (StatusRegister { bits: 0u8 })
        &&& self.scanline == 0
        &&& self.cycles == 0
        &&& self.nmi_interrupt is None
    }

    pub fn new(chr_rom: Vec<u8>, mirroring: Mirroring) -> (r: NesPPU)
        ensures
            r.spec_is_new(chr_rom, mirroring),
            r.wf(),
    {
        broadcast use vstd::array::axiom_spec_array_fill_for_copy_type;

        let r = NesPPU {
            chr_rom: chr_rom,
            mirroring: mirroring,
            vram: [0u8; 2048],
            oam_data: [0u8; 256],
            palette_table: [0u8; 32],
            internal_data_buf: 0,
            addr: AddrRegister::new(),
            ctrl: ControlRegister::new(),
            mask: MaskRegister::new(),
            oam_addr: 0,
            scroll: ScrollRegister::new(),
            status: StatusRegister::new(),
            scanline: 0,
            cycles: 0,
            nmi_interrupt: None,
        };
        proof {
            assert(r.vram@ =~= Seq::<u8>::new(2048, |i: int| 0u8));
            assert(r.oam_data@ =~= Seq::<u8>::new(256, |i: int| 0u8));
            assert(r.palette_table@ =~= Seq::<u8>::new(32, |i: int| 0u8));
        }
        r
    }

    /// Advances the clock by `cycles` dots. Crossing dot 341 enters the next
    /// scanline; entering scanline 241 raises the vertical-blank flag (and
    /// the NMI latch when enabled); reaching scanline 262 wraps to the
    /// pre-render line, clears the blanking state, and reports the frame as
    /// complete. The result is true exactly when the dot total crosses the
    /// 89342-dot frame boundary.
    pub fn tick(&mut self, cycles: u8) -> (r: bool)
        requires
            old(self).wf(),
        ensures
            final(self).wf(),
            ({
                let crossed = old(self).cycles + cycles >= 341;
                let wrapped = crossed && old(self).scanline == 261;
                let entered_vblank = crossed && old(self).scanline == 240;
                &&& (*final(self), r) == spec_tick(*old(self), cycles)
                &&& r == wrapped
                &&& r == (old(self).spec_total_dots() + cycles >= 89342)
                &&& final(self).spec_total_dots() == spec_dot_step(
                    old(self).spec_total_dots(),
                    cycles,
                )
                &&& final(self).spec_total_dots() == old(self).spec_total_dots() + cycles - (
                if wrapped {
                    89342int
                } else {
                    0int
                })
                &&& final(self).cycles == if crossed {
                    old(self).cycles + cycles - 341
                } else {
                    old(self).cycles + cycles
                }
                &&& final(self).scanline == if wrapped {
                    0int
                } else if crossed {
                    old(self).scanline + 1
                } else {
                    old(self).scanline as int
                }
                &&& final(self).status.bits == if wrapped {
                    (old(self).status.bits & 0b1011_1111) & 0b0111_1111
                } else if entered_vblank {
                    (old(self).status.bits | 0b1000_0000) & 0b1011_1111
                } else {
                    old(self).status.bits
                }
                &&& final(self).nmi_interrupt == if wrapped {
                    None::<u8>
                } else if entered_vblank && old(self).ctrl.spec_generate_vblank_nmi() {
                    Some(1u8)
                } else {
                    old(self).nmi_interrupt
                }
                &&& final(self).chr_rom@ == old(self).chr_rom@
                &&& final(self).vram@ == old(self).vram@
                &&& final(self).palette_table@ == old(self).palette_table@
                &&& final(self).oam_data@ == old(self).oam_data@
                &&& final(self).oam_addr == old(self).oam_addr
                &&& final(self).mirroring == old(self).mirroring
                &&& final(self).internal_data_buf == old(self).internal_data_buf
                &&& final(self).addr == old(self).addr
                &&& final(self).ctrl == old(self).ctrl
                &&& final(self).mask == old(self).mask
                &&& final(self).scroll == old(self).scroll
            }),
    {
        self.cycles += cycles as usize;
        if self.cycles >= 341 {
            self.cycles = self.cycles - 341;
            self.scanline += 1;

            if self.scanline == 241 {
                self.status.set_vblank_status(true);
                self.status.set_sprite_zero_hit(false);
                if self.ctrl.generate_vblank_nmi() {
                    self.nmi_interrupt = Some(1);
                }
            }

            if self.scanline >= 262 {
                self.scanline = 0;
                self.nmi_interrupt = None;
                self.status.set_sprite_zero_hit(false);
                self.status.reset_vblank_status();
                return true;
            }
        }
        false
    }

    /// Offset into physical VRAM for a name-table access at `addr`.
    pub fn mirror_vram_addr(&self, addr: u16) -> (r: u16)
        requires
            0x2000 <= addr < 0x4000,
            self.mirroring != Mirroring::FOUR_SCREEN,
        ensures
            r == spec_mirror_vram_addr(self.mirroring, addr),
            r < 0x800,
    {
        proof {
            lemma_vram_mirror_mask(addr);
        }
        let mirrored_vram = addr & 0b10_1111_1111_1111;
        let vram_index = mirrored_vram - 0x2000;
        let name_table = vram_index / 0x400;

        if self.mirroring == Mirroring::VERTICAL && (name_table == 2 || name_table == 3) {
            vram_index - 0x800
        } else if self.mirroring == Mirroring::HORIZONTAL && (name_table == 1 || name_table == 2) {
            vram_index - 0x400
        } else if self.mirroring == Mirroring::HORIZONTAL && name_table == 3 {
            vram_index - 0x800
        } else {
            vram_index
        }
    }

    fn increment_vram_addr(&mut self)
        requires
            old(self).addr.wf(),
        ensures
            final(self).addr.spec_get() == (old(self).addr.spec_get()
                + old(self).ctrl.spec_vram_addr_increment()) % 0x4000,
            final(self).addr.hi_ptr == old(self).addr.hi_ptr,
            final(self).addr.wf(),
            *final(self) == (NesPPU { addr: final(self).addr, ..*old(self) }),
    {
        let inc = self.ctrl.vram_addr_increment();
        self.addr.increment(inc);
    }

    /// Write through the data port `$2007` at the current ADDR: a no-op in
    /// the character-ROM range, a mirrored VRAM write in the name-table
    /// range, a palette write (with its four aliases) above `$3F00`; every
    /// access then steps ADDR by the CTRL-selected increment.
    pub fn write_to_data(&mut self, value: u8)
        requires
            old(self).wf(),
            old(self).mirroring != Mirroring::FOUR_SCREEN,
        ensures
            final(self).wf(),
            ({
                let a = old(self).addr.spec_get() as u16;
                &&& final(self).addr.spec_get() == (old(self).addr.spec_get()
                    + old(self).ctrl.spec_vram_addr_increment()) % 0x4000
                &&& final(self).addr.hi_ptr == old(self).addr.hi_ptr
                &&& a < 0x2000 ==> (final(self).vram@ == old(self).vram@ && final(self).palette_table@ == old(self).palette_table@)
                &&& 0x2000 <= a < 0x3f00 ==> (final(self).vram@ == old(self).vram@.update(
                    spec_mirror_vram_addr(old(self).mirroring, a),
                    value,
                ) && final(self).palette_table@ == old(self).palette_table@)
                &&& 0x3f00 <= a ==> (final(self).palette_table@ == old(self).palette_table@.update(spec_palette_index(a), value) && final(self).vram@ == old(self).vram@)
                &&& final(self).internal_data_buf == old(self).internal_data_buf
                &&& final(self).spec_port_untouched(*old(self))
            }),
    {
        let addr = self.addr.get();
        if addr < 0x2000 {
            // writes into character ROM are dropped
        } else if addr < 0x3f00 {
            let idx = self.mirror_vram_addr(addr);
            self.vram[idx as usize] = value;
        } else {
            if addr == 0x3f10 || addr == 0x3f14 || addr == 0x3f18 || addr == 0x3f1c {
                let idx = (addr - 0x3f10) as usize;
                self.palette_table[idx] = value;
            } else {
                let idx = ((addr - 0x3f00) % 0x20) as usize;
                self.palette_table[idx] = value;
            }
        }
        self.increment_vram_addr();
    }

    /// Read through the data port `$2007`: character-ROM and VRAM reads
    /// return the internal buffer and refill it from the addressed byte;
    /// palette reads bypass the buffer but refresh it from the name-table
    /// byte under the palette address. Every access steps ADDR.
    pub fn read_data(&mut self) -> (r: u8)
        requires
            old(self).wf(),
            old(self).mirroring != Mirroring::FOUR_SCREEN,
            old(self).addr.spec_get() < 0x2000 ==> old(self).addr.spec_get()
                < old(self).chr_rom@.len(),
        ensures
            final(self).wf(),
            ({
                let a = old(self).addr.spec_get() as u16;
                &&& final(self).addr.spec_get() == (old(self).addr.spec_get()
                    + old(self).ctrl.spec_vram_addr_increment()) % 0x4000
                &&& final(self).addr.hi_ptr == old(self).addr.hi_ptr
                &&& a < 0x2000 ==> (r == old(self).internal_data_buf && final(self).internal_data_buf == old(self).chr_rom@[a as int])
                &&& 0x2000 <= a < 0x3f00 ==> (r == old(self).internal_data_buf && final(self).internal_data_buf == old(self).vram@[spec_mirror_vram_addr(
                    old(self).mirroring,
                    a,
                )])
                &&& 0x3f00 <= a ==> (r == old(self).palette_table@[spec_palette_index(a)] && final(self).internal_data_buf == old(self).vram@[spec_mirror_vram_addr(
                    old(self).mirroring,
                    a,
                )])
                &&& final(self).vram@ == old(self).vram@
                &&& final(self).palette_table@ == old(self).palette_table@
                &&& final(self).spec_port_untouched(*old(self))
            }),
    {
        let addr = self.addr.get();
        self.increment_vram_addr();

        if addr < 0x2000 {
            let result = self.internal_data_buf;
            self.internal_data_buf = self.chr_rom[addr as usize];
            result
        } else if addr < 0x3f00 {
            let result = self.internal_data_buf;
            let idx = self.mirror_vram_addr(addr);
            self.internal_data_buf = self.vram[idx as usize];
            result
        } else {
            let nt_idx = self.mirror_vram_addr(addr);
            self.internal_data_buf = self.vram[nt_idx as usize];
            if addr == 0x3f10 || addr == 0x3f14 || addr == 0x3f18 || addr == 0x3f1c {
                self.palette_table[(addr - 0x3f10) as usize]
            } else {
                self.palette_table[((addr - 0x3f00) % 0x20) as usize]
            }
        }
    }

    /// Bulk OAM load through `$4014`: 256 bytes land at the current OAM
    /// address onward, wrapping modulo 256, which leaves the address where
    /// it started.
    pub fn write_oam_dma(&mut self, data: &[u8; 256])
        ensures
            forall|i: int|
                0 <= i < 256 ==> final(self).oam_data@[(old(self).oam_addr + i) % 256] == data@[i],
            final(self).oam_addr == old(self).oam_addr,
            *final(self) == (NesPPU {
                oam_data: final(self).oam_data,
                oam_addr: final(self).oam_addr,
                ..*old(self)
            }),
    {
        let mut i: usize = 0;
        while i < 256
            invariant
                i <= 256,
                self.oam_addr == ((old(self).oam_addr + i) % 256),
                forall|j: int|
                    0 <= j < i ==> self.oam_data@[(old(self).oam_addr + j) % 256] == data@[j],
                *self == (NesPPU {
                    oam_data: self.oam_data,
                    oam_addr: self.oam_addr,
                    ..*old(self)
                }),
            decreases 256 - i,
        {
            self.oam_data[self.oam_addr as usize] = data[i];
            self.oam_addr = self.oam_addr.wrapping_add(1);
            i += 1;
        }
    }

    pub fn read_oam_data(&self) -> (r: u8)
        ensures
            r == self.oam_data@[self.oam_addr as int],
    {
        self.oam_data[self.oam_addr as usize]
    }

    /// Read of STATUS `$2002`: returns the pre-read snapshot, clears the
    /// vertical-blank bit and rewinds both the ADDR and SCROLL latches.
    pub fn read_status(&mut self) -> (r: u8)
        ensures
            r == old(self).status.bits,
            *final(self) == spec_after_status_read(*old(self)),
            final(self).status.bits == (old(self).status.bits & 0b0111_1111),
            final(self).addr == (AddrRegister { hi_ptr: true, ..old(self).addr }),
            final(self).scroll == (ScrollRegister { scroll_switch: false, ..old(self).scroll }),
            *final(self) == (NesPPU {
                status: final(self).status,
                addr: final(self).addr,
                scroll: final(self).scroll,
                ..*old(self)
            }),
    {
        let data = self.status.snapshot();
        self.status.reset_vblank_status();
        self.addr.reset_latch();
        self.scroll.reset_scroll_switch();
        data
    }

    pub fn write_to_oam_data(&mut self, value: u8)
        ensures
            final(self).oam_data@ == old(self).oam_data@.update(old(self).oam_addr as int, value),
            final(self).oam_addr == old(self).oam_addr.wrapping_add(1),
            *final(self) == (NesPPU {
                oam_data: final(self).oam_data,
                oam_addr: final(self).oam_addr,
                ..*old(self)
            }),
    {
        self.oam_data[self.oam_addr as usize] = value;
        self.oam_addr = self.oam_addr.wrapping_add(1);
    }

    pub fn write_to_ppu_addr(&mut self, value: u8)
        requires
            old(self).wf(),
        ensures
            final(self).wf(),
            final(self).addr.spec_get() == if old(self).addr.hi_ptr {
                (value * 256 + old(self).addr.value.1) % 0x4000
            } else {
                (old(self).addr.value.0 * 256 + value) % 0x4000
            },
            final(self).addr.hi_ptr == !old(self).addr.hi_ptr,
            *final(self) == (NesPPU { addr: final(self).addr, ..*old(self) }),
    {
        self.addr.update(value);
    }

    pub fn write_to_ctrl(&mut self, value: u8)
        ensures
            *final(self) == (NesPPU { ctrl: ControlRegister { bits: value }, ..*old(self) }),
    {
        self.ctrl.update(value);
    }

    pub fn write_to_mask(&mut self, value: u8)
        ensures
            *final(self) == (NesPPU { mask: MaskRegister { bits: value }, ..*old(self) }),
    {
        self.mask.update(value);
    }

    pub fn write_to_oam_addr(&mut self, value: u8)
        ensures
            *final(self) == (NesPPU { oam_addr: value, ..*old(self) }),
    {
        self.oam_addr = value;
    }

    pub fn write_to_scroll(&mut self, value: u8)
        ensures
            final(self).scroll.scroll_x == if !old(self).scroll.scroll_switch {
                value
            } else {
                old(self).scroll.scroll_x
            },
            final(self).scroll.scroll_y == if old(self).scroll.scroll_switch {
                value
            } else {
                old(self).scroll.scroll_y
            },
            final(self).scroll.scroll_switch == !old(self).scroll.scroll_switch,
            *final(self) == (NesPPU { scroll: final(self).scroll, ..*old(self) }),
    {
        self.scroll.write(value);
    }
}

/// `addr & 0x2FFF` folds the `$3000` mirror range down onto `$2000`.
proof fn lemma_vram_mirror_mask(addr: u16)
    by (bit_vector)
    requires
        0x2000 <= addr < 0x4000,
    ensures
        addr & 0b10_1111_1111_1111 == if addr >= 0x3000 {
            (addr - 0x1000) as u16
        } else {
            addr
        },
{
}

/// Name-table mirroring law: with horizontal mirroring `$2000+x` and
/// `$2400+x` reach the same physical byte; with vertical mirroring `$2000+x`
/// and `$2800+x` do.
pub proof fn lemma_nametable_mirroring(x: u16)
    requires
        x < 0x400,
    ensures
        spec_mirror_vram_addr(Mirroring::HORIZONTAL, (0x2000 + x) as u16) == spec_mirror_vram_addr(
            Mirroring::HORIZONTAL,
            (0x2400 + x) as u16,
        ),
        spec_mirror_vram_addr(Mirroring::VERTICAL, (0x2000 + x) as u16) == spec_mirror_vram_addr(
            Mirroring::VERTICAL,
            (0x2800 + x) as u16,
        ),
{
    assert(x / 0x400 == 0);
    assert((0x400 + x) / 0x400 == 1);
    assert((0x800 + x) / 0x400 == 2);
}

/// Palette mirroring law: a write at `$3F10` lands on the same palette entry
/// as one at `$3F00`, and likewise in the other direction, so each is
/// observable at the other address.
pub proof fn lemma_palette_mirroring()
    ensures
        spec_palette_index(0x3f10) == spec_palette_index(0x3f00),
        spec_palette_index(0x3f14) == spec_palette_index(0x3f04),
        spec_palette_index(0x3f18) == spec_palette_index(0x3f08),
        spec_palette_index(0x3f1c) == spec_palette_index(0x3f0c),
{
}

/// STATUS read law: a read hands back the pre-read snapshot while the state
/// it leaves behind has the vertical-blank bit clear and both write latches
/// rewound, so the second of two back-to-back reads reports no blanking.
pub proof fn lemma_status_read_clears_vblank(p: NesPPU)
    ensures
        !spec_after_status_read(p).status.spec_vblank(),
        !spec_after_status_read(spec_after_status_read(p)).status.spec_vblank(),
        spec_after_status_read(p).addr.hi_ptr,
        !spec_after_status_read(p).scroll.scroll_switch,
{
    let bits = p.status.bits;
    assert(((bits & 0b0111_1111) & 0b1000_0000 == 0) && (((bits & 0b0111_1111) & 0b0111_1111)
        & 0b1000_0000 == 0)) by (bit_vector);
}


/// One tick's effect on the dot total: it grows by the dots handed in, less
/// one whole frame exactly when it crosses the frame boundary.
pub open spec fn spec_dot_step(total: int, dots: u8) -> int {
    if total + dots >= 89342 {
        total + dots - 89342
    } else {
        total + dots
    }
}

pub open spec fn spec_sum_dots(ds: Seq<u8>) -> int
    decreases ds.len(),
{
    if ds.len() == 0 {
        0
    } else {
        spec_sum_dots(ds.drop_last()) + ds.last()
    }
}

/// The dot total after a sequence of ticks.
pub open spec fn spec_total_after_ticks(total: int, ds: Seq<u8>) -> int
    decreases ds.len(),
{
    if ds.len() == 0 {
        total
    } else {
        spec_dot_step(spec_total_after_ticks(total, ds.drop_last()), ds.last())
    }
}

/// How many of the ticks in the sequence reported a completed frame.
pub open spec fn spec_frames_after_ticks(total: int, ds: Seq<u8>) -> int
    decreases ds.len(),
{
    if ds.len() == 0 {
        0
    } else {
        spec_frames_after_ticks(total, ds.drop_last()) + if spec_total_after_ticks(
            total,
            ds.drop_last(),
        ) + ds.last() >= 89342 {
            1int
        } else {
            0int
        }
    }
}

/// Tick law: over any sequence of ticks from a dot total inside one frame,
/// the final total is the accumulated dot count modulo the 89342-dot frame,
/// and the frame flag has come back true exactly once per whole frame
/// crossed.
pub proof fn lemma_tick_frame_count(total: int, ds: Seq<u8>)
    requires
        0 <= total < 89342,
    ensures
        spec_total_after_ticks(total, ds) == (total + spec_sum_dots(ds)) % 89342,
        spec_frames_after_ticks(total, ds) == (total + spec_sum_dots(ds)) / 89342,
    decreases ds.len(),
{
    if ds.len() == 0 {
        vstd::arithmetic::div_mod::lemma_fundamental_div_mod_converse(total, 89342, 0, total);
    } else {
        let prev = ds.drop_last();
        let d = ds.last();
        lemma_tick_frame_count(total, prev);
        let x = total + spec_sum_dots(prev);
        let q = spec_frames_after_ticks(total, prev);
        let t = spec_total_after_ticks(total, prev);
        vstd::arithmetic::div_mod::lemma_fundamental_div_mod(x, 89342);
        if t + d >= 89342 {
            vstd::arithmetic::div_mod::lemma_fundamental_div_mod_converse(
                x + d,
                89342,
                q + 1,
                t + d - 89342,
            );
        } else {
            vstd::arithmetic::div_mod::lemma_fundamental_div_mod_converse(x + d, 89342, q, t + d);
        }
    }
}

} // verus!
