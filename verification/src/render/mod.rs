//! Software renderer: paints a whole 256 x 240 frame from the PPU's name
//! tables, attribute tables, pattern banks and sprite memory.

pub mod frame;
pub mod palette;

use crate::cartridge::Mirroring;
use crate::ppu::NesPPU;
use frame::Frame;
use vstd::prelude::*;

verus! {

/// Which 2-bit palette selector of an attribute byte governs the tile at
/// `(tile_column, tile_row)`: one selector per 32 x 32-pixel quadrant.
pub open spec fn spec_attr_quadrant(attr: u8, tile_column: int, tile_row: int) -> u8 {
    if tile_column % 4 / 2 == 0 && tile_row % 4 / 2 == 0 {
        attr & 0b11
    } else if tile_column % 4 / 2 == 1 && tile_row % 4 / 2 == 0 {
        (attr >> 2u8) & 0b11
    } else if tile_column % 4 / 2 == 0 && tile_row % 4 / 2 == 1 {
        (attr >> 4u8) & 0b11
    } else {
        (attr >> 6u8) & 0b11
    }
}

/// The 2-bit colour value of pixel `(x, y)` of the 16-byte CHR tile at
/// `tile_base`: bit `7 - x` of the second bit plane over the same bit of
/// the first.
pub open spec fn spec_tile_pixel_value(chr: Seq<u8>, tile_base: int, x: int, y: int) -> u8
    recommends
        0 <= tile_base,
        tile_base + 16 <= chr.len(),
        0 <= x < 8,
        0 <= y < 8,
{
    (((chr[tile_base + y + 8] >> ((7 - x) as u8)) & 1) << 1u8) | ((chr[tile_base + y] >> ((7 - x)
        as u8)) & 1)
}

/// The palette entry the background shows at pixel `(x, y)` of the tile in
/// grid cell `(tile_column, tile_row)`: colour value 0 shows the universal
/// backdrop, values 1-3 the attribute-selected palette entry.
pub open spec fn spec_bg_pixel_entry(
    ppu: NesPPU,
    name_table_base: int,
    tile_column: int,
    tile_row: int,
    x: int,
    y: int,
) -> u8 {
    let tile_idx = ppu.vram@[name_table_base + tile_row * 32 + tile_column];
    let tile_base = ppu.ctrl.spec_bknd_pattern_addr() + tile_idx * 16;
    let v = spec_tile_pixel_value(ppu.chr_rom@, tile_base, x, y);
    let attr = ppu.vram@[name_table_base + 0x3c0 + (tile_row / 4 * 8 + tile_column / 4)];
    let idx = spec_attr_quadrant(attr, tile_column, tile_row);
    if v == 0 {
        ppu.palette_table@[0]
    } else {
        ppu.palette_table@[v + idx * 4]
    }
}

/// Decodes one pixel of one CHR tile.
fn tile_pixel_value(chr: &Vec<u8>, tile_base: usize, x: usize, y: usize) -> (v: u8)
    requires
        chr@.len() == 0x2000,
        tile_base + 16 <= 0x2000,
        x < 8,
        y < 8,
    ensures
        v == spec_tile_pixel_value(chr@, tile_base as int, x as int, y as int),
        v <= 3,
{
    let upper = chr[tile_base + y];
    let lower = chr[tile_base + y + 8];
    let shift = (7 - x) as u8;
    let v = (((lower >> shift) & 1) << 1u8) | ((upper >> shift) & 1);
    proof {
        assert(((((lower >> shift) & 1) << 1u8) | ((upper >> shift) & 1)) <= 3) by (bit_vector);
    }
    v
}

/// What the background pass paints at frame pixel `(px, py)` when a name
/// table is drawn unshifted: the system-palette colour of the pixel's entry.
pub open spec fn spec_bg_pixel_rgb(ppu: NesPPU, name_table_base: int, px: int, py: int) -> (
    u8,
    u8,
    u8,
) {
    palette::spec_system_palette(
        spec_bg_pixel_entry(ppu, name_table_base, px / 8, py / 8, px % 8, py % 8),
    )
}

/// Frame `f` holds, at pixel `(px, py)`, exactly the background colour of
/// the name table at `name_table_base`.
pub open spec fn spec_bg_painted(f: Frame, ppu: NesPPU, name_table_base: int, px: int, py: int) -> bool {
    let rgb = spec_bg_pixel_rgb(ppu, name_table_base, px, py);
    &&& f.data@[py * 768 + px * 3] == rgb.0
    &&& f.data@[py * 768 + px * 3 + 1] == rgb.1
    &&& f.data@[py * 768 + px * 3 + 2] == rgb.2
}

/// The four colours of one background tile: the universal backdrop plus the
/// three entries of the attribute-selected palette.
fn bg_pallette(
    ppu: &NesPPU,
    name_table_base: usize,
    tile_column: usize,
    tile_row: usize,
) -> (r: [u8; 4])
    requires
        name_table_base + 0x400 <= 2048,
        tile_column < 32,
        tile_row < 30,
    ensures
        ({
            let attr = ppu.vram@[name_table_base + 0x3c0 + (tile_row / 4 * 8 + tile_column / 4)];
            let idx = spec_attr_quadrant(attr, tile_column as int, tile_row as int);
            &&& r@[0] == ppu.palette_table@[0]
            &&& r@[1] == ppu.palette_table@[1 + idx * 4]
            &&& r@[2] == ppu.palette_table@[2 + idx * 4]
            &&& r@[3] == ppu.palette_table@[3 + idx * 4]
        }),
{
    let attr_table_idx = tile_row / 4 * 8 + tile_column / 4;
    let attr_byte = ppu.vram[name_table_base + 0x3c0 + attr_table_idx];

    let quadrant = (tile_column % 4 / 2, tile_row % 4 / 2);
    let pallet_idx = if quadrant.0 == 0 && quadrant.1 == 0 {
        attr_byte & 0b11
    } else if quadrant.0 == 1 && quadrant.1 == 0 {
        (attr_byte >> 2u8) & 0b11
    } else if quadrant.0 == 0 && quadrant.1 == 1 {
        (attr_byte >> 4u8) & 0b11
    } else {
        (attr_byte >> 6u8) & 0b11
    };
    proof {
        let b = attr_byte;
        assert(b & 0b11 <= 3 && (b >> 2u8) & 0b11 <= 3 && (b >> 4u8) & 0b11 <= 3 && (b >> 6u8)
            & 0b11 <= 3) by (bit_vector);
    }

    let pallete_start: usize = 1 + (pallet_idx as usize) * 4;

    [
        ppu.palette_table[0],
        ppu.palette_table[pallete_start],
        ppu.palette_table[pallete_start + 1],
        ppu.palette_table[pallete_start + 2],
    ]
}

/// The palette entry of one background pixel, decoded from the name table,
/// the attribute table and the CHR bit planes.
fn bg_pixel_entry(
    ppu: &NesPPU,
    name_table_base: usize,
    tile_column: usize,
    tile_row: usize,
    x: usize,
    y: usize,
) -> (entry: u8)
    requires
        ppu.chr_rom@.len() == 0x2000,
        name_table_base + 0x400 <= 2048,
        tile_column < 32,
        tile_row < 30,
        x < 8,
        y < 8,
    ensures
        entry == spec_bg_pixel_entry(
            *ppu,
            name_table_base as int,
            tile_column as int,
            tile_row as int,
            x as int,
            y as int,
        ),
{
    let tile_idx = ppu.vram[name_table_base + tile_row * 32 + tile_column] as usize;
    let bank = ppu.ctrl.bknd_pattern_addr() as usize;
    let v = tile_pixel_value(&ppu.chr_rom, bank + tile_idx * 16, x, y);
    let palette = bg_pallette(ppu, name_table_base, tile_column, tile_row);
    if v == 0 {
        ppu.palette_table[0]
    } else {
        palette[v as usize]
    }
}

/// The three colours of one sprite palette; entry zero is transparent.
fn sprite_palette(ppu: &NesPPU, pallete_idx: u8) -> (r: [u8; 4])
    requires
        pallete_idx <= 3,
    ensures
        r@[0] == 0,
        r@[1] == ppu.palette_table@[0x11 + pallete_idx * 4],
        r@[2] == ppu.palette_table@[0x12 + pallete_idx * 4],
        r@[3] == ppu.palette_table@[0x13 + pallete_idx * 4],
{
    let start = 0x11 + (pallete_idx as usize) * 4;
    [0, ppu.palette_table[start], ppu.palette_table[start + 1], ppu.palette_table[start + 2]]
}

/// A clipping window in frame coordinates: `(x1, y1)` inclusive top-left,
/// `(x2, y2)` exclusive bottom-right.
struct Rect {
    x1: usize,
    y1: usize,
    x2: usize,
    y2: usize,
}

impl Rect {
    fn new(x1: usize, y1: usize, x2: usize, y2: usize) -> (r: Rect)
        ensures
            r.x1 == x1 && r.y1 == y1 && r.x2 == x2 && r.y2 == y2,
    {
        Rect { x1, y1, x2, y2 }
    }
}

/// Draws the 960 tiles of one name table, clipped to `view_port` and moved
/// by `(shift_x, shift_y)`.
fn render_name_table(
    ppu: &NesPPU,
    frame: &mut Frame,
    name_table_base: usize,
    view_port: Rect,
    shift_x: isize,
    shift_y: isize,
)
    requires
        old(frame).wf(),
        ppu.chr_rom@.len() == 0x2000,
        name_table_base + 0x400 <= 2048,
        -512 <= shift_x <= 512,
        -512 <= shift_y <= 512,
    ensures
        final(frame).wf(),
        (shift_x == 0 && shift_y == 0 && view_port.x1 == 0 && view_port.y1 == 0 && view_port.x2
            == 256 && view_port.y2 == 240) ==> forall|px: int, py: int|
            0 <= px < 256 && 0 <= py < 240 ==> #[trigger] spec_bg_painted(
                *final(frame),
                *ppu,
                name_table_base as int,
                px,
                py,
            ),
{
    let ghost full = shift_x == 0 && shift_y == 0 && view_port.x1 == 0 && view_port.y1 == 0
        && view_port.x2 == 256 && view_port.y2 == 240;
    let mut i: usize = 0;
    while i < 0x3c0
        invariant
            frame.wf(),
            ppu.chr_rom@.len() == 0x2000,
            name_table_base + 0x400 <= 2048,
            -512 <= shift_x <= 512,
            -512 <= shift_y <= 512,
            i <= 0x3c0,
            full == (shift_x == 0 && shift_y == 0 && view_port.x1 == 0 && view_port.y1 == 0
                && view_port.x2 == 256 && view_port.y2 == 240),
            full ==> forall|px: int, py: int|
                0 <= px < 256 && 0 <= py < 240 && (py / 8) * 32 + px / 8 < i
                    ==> #[trigger] spec_bg_painted(*frame, *ppu, name_table_base as int, px, py),
        decreases 0x3c0 - i,
    {
        let tile_column = i % 32;
        let tile_row = i / 32;

        let mut y: usize = 0;
        while y < 8
            invariant
                frame.wf(),
                ppu.chr_rom@.len() == 0x2000,
                name_table_base + 0x400 <= 2048,
                tile_column == i % 32,
                tile_row == i / 32,
                i < 0x3c0,
                y <= 8,
                -512 <= shift_x <= 512,
                -512 <= shift_y <= 512,
                full == (shift_x == 0 && shift_y == 0 && view_port.x1 == 0 && view_port.y1 == 0
                    && view_port.x2 == 256 && view_port.y2 == 240),
                full ==> forall|px: int, py: int|
                    0 <= px < 256 && 0 <= py < 240 && ((py / 8) * 32 + px / 8 < i || ((py / 8) * 32
                        + px / 8 == i && py % 8 < y)) ==> #[trigger] spec_bg_painted(
                        *frame,
                        *ppu,
                        name_table_base as int,
                        px,
                        py,
                    ),
            decreases 8 - y,
        {
            let mut k: usize = 0;
            while k < 8
                invariant
                    frame.wf(),
                    ppu.chr_rom@.len() == 0x2000,
                    name_table_base + 0x400 <= 2048,
                    tile_column == i % 32,
                    tile_row == i / 32,
                    i < 0x3c0,
                    y < 8,
                    k <= 8,
                    -512 <= shift_x <= 512,
                    -512 <= shift_y <= 512,
                    full == (shift_x == 0 && shift_y == 0 && view_port.x1 == 0 && view_port.y1
                        == 0 && view_port.x2 == 256 && view_port.y2 == 240),
                    full ==> forall|px: int, py: int|
                        0 <= px < 256 && 0 <= py < 240 && ((py / 8) * 32 + px / 8 < i || ((py / 8)
                            * 32 + px / 8 == i && (py % 8 < y || (py % 8 == y && px % 8 > 7 - k))))
                            ==> #[trigger] spec_bg_painted(
                            *frame,
                            *ppu,
                            name_table_base as int,
                            px,
                            py,
                        ),
                decreases 8 - k,
            {
                let x = 7 - k;
                let entry = bg_pixel_entry(ppu, name_table_base, tile_column, tile_row, x, y);
                let rgb = palette::system_palette(entry);
                let pixel_x = tile_column * 8 + x;
                let pixel_y = tile_row * 8 + y;

                let ghost pre = *frame;
                if pixel_x >= view_port.x1 && pixel_x < view_port.x2 && pixel_y >= view_port.y1
                    && pixel_y < view_port.y2 {
                    let sx = shift_x + pixel_x as isize;
                    let sy = shift_y + pixel_y as isize;
                    if sx >= 0 && sy >= 0 {
                        frame.set_pixel(sx as usize, sy as usize, rgb);
                    }
                }
                proof {
                    if full {
                        assert(pixel_x / 8 == tile_column && pixel_x % 8 == x) by {
                            vstd::arithmetic::div_mod::lemma_fundamental_div_mod_converse(
                                pixel_x as int,
                                8,
                                tile_column as int,
                                x as int,
                            );
                        }
                        assert(pixel_y / 8 == tile_row && pixel_y % 8 == y) by {
                            vstd::arithmetic::div_mod::lemma_fundamental_div_mod_converse(
                                pixel_y as int,
                                8,
                                tile_row as int,
                                y as int,
                            );
                        }
                        assert forall|px: int, py: int|
                            0 <= px < 256 && 0 <= py < 240 && ((py / 8) * 32 + px / 8 < i || ((py
                                / 8) * 32 + px / 8 == i && (py % 8 < y || (py % 8 == y && px % 8
                                > 7 - (k + 1))))) implies #[trigger] spec_bg_painted(
                            *frame,
                            *ppu,
                            name_table_base as int,
                            px,
                            py,
                        ) by {
                            if px == pixel_x && py == pixel_y {
                                assert(spec_bg_painted(
                                    *frame,
                                    *ppu,
                                    name_table_base as int,
                                    px,
                                    py,
                                ));
                            } else {
                                assert(py * 768 + px * 3 != pixel_y * 768 + pixel_x * 3);
                                assert(spec_bg_painted(pre, *ppu, name_table_base as int, px, py));
                            }
                        }
                    }
                }
                k += 1;
            }
            y += 1;
        }
        i += 1;
    }
}

/// Which physical name table the background pass draws first, selected by
/// the mirroring kind and CTRL's base name-table bits.
pub open spec fn spec_primary_nametable(ppu: NesPPU) -> int {
    let nta = ppu.ctrl.spec_nametable_addr();
    if ppu.mirroring == Mirroring::VERTICAL && (nta == 0x2000 || nta == 0x2800)
        || ppu.mirroring == Mirroring::HORIZONTAL && (nta == 0x2000 || nta == 0x2400) {
        0
    } else {
        0x400
    }
}

/// The CTRL-selected sprite pattern bank holds only zero bytes, so every
/// sprite pixel is transparent.
pub open spec fn spec_sprite_bank_blank(ppu: NesPPU) -> bool {
    forall|j: int|
        0 <= j < 0x1000 ==> #[trigger] ppu.chr_rom@[ppu.ctrl.spec_sprt_pattern_addr() + j] == 0
}

/// A tile decoded from zero bytes is transparent everywhere.
proof fn lemma_zero_tile_pixel(sh: u8)
    by (bit_vector)
    ensures
        (((0u8 >> sh) & 1) << 1u8) | ((0u8 >> sh) & 1) == 0,
{
}

/// Paints the whole frame: the primary name table shifted by the scroll,
/// the secondary filling the scrolled-off edge, then the 64 sprites in
/// reverse OAM order so lower-index sprites land on top.
pub fn render(ppu: &NesPPU, frame: &mut Frame)
    requires
        old(frame).wf(),
        ppu.chr_rom@.len() == 0x2000,
        ppu.mirroring != Mirroring::FOUR_SCREEN,
    ensures
        final(frame).wf(),
        (ppu.scroll.scroll_x == 0 && ppu.scroll.scroll_y == 0 && spec_sprite_bank_blank(*ppu))
            ==> forall|px: int, py: int|
            0 <= px < 256 && 0 <= py < 240 ==> #[trigger] spec_bg_painted(
                *final(frame),
                *ppu,
                spec_primary_nametable(*ppu),
                px,
                py,
            ),
{
    let ghost exact = ppu.scroll.scroll_x == 0 && ppu.scroll.scroll_y == 0
        && spec_sprite_bank_blank(*ppu);
    let scroll_x = ppu.scroll.scroll_x as usize;
    let scroll_y = ppu.scroll.scroll_y as usize;

    let nta = ppu.ctrl.nametable_addr();
    let first = ppu.mirroring == Mirroring::VERTICAL && (nta == 0x2000 || nta == 0x2800)
        || ppu.mirroring == Mirroring::HORIZONTAL && (nta == 0x2000 || nta == 0x2400);
    let (main_nametable, second_nametable): (usize, usize) = if first {
        (0, 0x400)
    } else {
        (0x400, 0)
    };

    render_name_table(
        ppu,
        frame,
        main_nametable,
        Rect::new(scroll_x, scroll_y, 256, 240),
        -(scroll_x as isize),
        -(scroll_y as isize),
    );

    if scroll_x > 0 {
        render_name_table(
            ppu,
            frame,
            second_nametable,
            Rect::new(0, 0, scroll_x, 240),
            256 - (scroll_x as isize),
            0,
        );
    } else if scroll_y > 0 {
        render_name_table(
            ppu,
            frame,
            second_nametable,
            Rect::new(0, 0, 256, scroll_y),
            0,
            240 - (scroll_y as isize),
        );
    }

    proof {
        if exact {
            assert(spec_primary_nametable(*ppu) == main_nametable);
        }
    }

    let mut i: usize = 256;
    while i >= 4
        invariant
            frame.wf(),
            ppu.chr_rom@.len() == 0x2000,
            i % 4 == 0,
            i <= 256,
            exact == (ppu.scroll.scroll_x == 0 && ppu.scroll.scroll_y == 0
                && spec_sprite_bank_blank(*ppu)),
            exact ==> spec_primary_nametable(*ppu) == main_nametable,
            exact ==> forall|px: int, py: int|
                0 <= px < 256 && 0 <= py < 240 ==> #[trigger] spec_bg_painted(
                    *frame,
                    *ppu,
                    spec_primary_nametable(*ppu),
                    px,
                    py,
                ),
        decreases i,
    {
        i -= 4;

        let tile_idx = ppu.oam_data[i + 1] as usize;
        let tile_x = ppu.oam_data[i + 3] as usize;
        let tile_y = ppu.oam_data[i] as usize;
        let attributes = ppu.oam_data[i + 2];

        let flip_vertical = (attributes >> 7u8) & 1 == 1;
        let flip_horizontal = (attributes >> 6u8) & 1 == 1;
        let pallette_idx = attributes & 0b11;
        proof {
            assert(attributes & 0b11 <= 3) by (bit_vector);
        }
        let sprite_colors = sprite_palette(ppu, pallette_idx);
        let bank = ppu.ctrl.sprt_pattern_addr();
        let tile_base = (bank as usize) + tile_idx * 16;

        let mut y: usize = 0;
        while y < 8
            invariant
                frame.wf(),
                ppu.chr_rom@.len() == 0x2000,
                tile_base + 16 <= 0x2000,
                tile_x <= 255,
                tile_y <= 255,
                exact == (ppu.scroll.scroll_x == 0 && ppu.scroll.scroll_y == 0
                    && spec_sprite_bank_blank(*ppu)),
                exact ==> (0 <= tile_base - ppu.ctrl.spec_sprt_pattern_addr() && tile_base
                    - ppu.ctrl.spec_sprt_pattern_addr() + 16 <= 0x1000),
                exact ==> spec_primary_nametable(*ppu) == main_nametable,
                exact ==> forall|px: int, py: int|
                0 <= px < 256 && 0 <= py < 240 ==> #[trigger] spec_bg_painted(
                    *frame,
                    *ppu,
                    spec_primary_nametable(*ppu),
                    px,
                    py,
                ),
            decreases 8 - y,
        {
            let mut k: usize = 0;
            while k < 8
                invariant
                    frame.wf(),
                    ppu.chr_rom@.len() == 0x2000,
                    tile_base + 16 <= 0x2000,
                    y < 8,
                    tile_x <= 255,
                    tile_y <= 255,
                    exact == (ppu.scroll.scroll_x == 0 && ppu.scroll.scroll_y == 0
                        && spec_sprite_bank_blank(*ppu)),
                    exact ==> (0 <= tile_base - ppu.ctrl.spec_sprt_pattern_addr() && tile_base
                        - ppu.ctrl.spec_sprt_pattern_addr() + 16 <= 0x1000),
                    exact ==> spec_primary_nametable(*ppu) == main_nametable,
                    exact ==> forall|px: int, py: int|
                0 <= px < 256 && 0 <= py < 240 ==> #[trigger] spec_bg_painted(
                    *frame,
                    *ppu,
                    spec_primary_nametable(*ppu),
                    px,
                    py,
                ),
                decreases 8 - k,
            {
                let x = 7 - k;
                let value = tile_pixel_value(&ppu.chr_rom, tile_base, x, y);
                proof {
                    if exact {
                        assert(ppu.chr_rom@[ppu.ctrl.spec_sprt_pattern_addr() + (tile_base + y
                            - ppu.ctrl.spec_sprt_pattern_addr())] == 0);
                        assert(ppu.chr_rom@[ppu.ctrl.spec_sprt_pattern_addr() + (tile_base + y + 8
                            - ppu.ctrl.spec_sprt_pattern_addr())] == 0);
                        lemma_zero_tile_pixel((7 - x) as u8);
                        assert(value == 0);
                    }
                }
                if value != 0 {
                    let rgb = if value == 1 {
                        palette::system_palette(sprite_colors[1])
                    } else if value == 2 {
                        palette::system_palette(sprite_colors[2])
                    } else {
                        palette::system_palette(sprite_colors[3])
                    };
                    if !flip_horizontal && !flip_vertical {
                        frame.set_pixel(tile_x + x, tile_y + y, rgb);
                    } else if flip_horizontal && !flip_vertical {
                        frame.set_pixel(tile_x + 7 - x, tile_y + y, rgb);
                    } else if !flip_horizontal && flip_vertical {
                        frame.set_pixel(tile_x + x, tile_y + 7 - y, rgb);
                    } else {
                        frame.set_pixel(tile_x + 7 - x, tile_y + 7 - y, rgb);
                    }
                }
                k += 1;
            }
            y += 1;
        }
    }
}

/// Paints one 8 x 8 tile from the selected pattern bank into the top-left
/// corner of a fresh frame, with a fixed preview palette.
pub fn show_tile(chr_rom: &Vec<u8>, bank: usize, tile_n: usize) -> (r: Frame)
    requires
        bank <= 1,
        tile_n < 256,
        chr_rom@.len() == 0x2000,
    ensures
        r.wf(),
{
    let mut frame = Frame::new();
    let bank_base = bank * 0x1000;
    let tile_base = bank_base + tile_n * 16;

    let mut y: usize = 0;
    while y < 8
        invariant
            frame.wf(),
            chr_rom@.len() == 0x2000,
            tile_base + 16 <= 0x2000,
        decreases 8 - y,
    {
        let mut upper = chr_rom[tile_base + y];
        let mut lower = chr_rom[tile_base + y + 8];

        let mut k: usize = 0;
        while k < 8
            invariant
                frame.wf(),
                y < 8,
            decreases 8 - k,
        {
            let x = 7 - k;
            let value = (1 & upper) << 1u8 | (1 & lower);
            let rgb = if value == 0 {
                palette::system_palette(0x01)
            } else if value == 1 {
                palette::system_palette(0x23)
            } else if value == 2 {
                palette::system_palette(0x27)
            } else {
                palette::system_palette(0x30)
            };
            frame.set_pixel(x, y, rgb);
            upper = upper >> 1u8;
            lower = lower >> 1u8;
            k += 1;
        }
        y += 1;
    }
    frame
}

/// Paints every tile of one pattern bank in a 20-wide grid, for inspecting
/// cartridge graphics.
pub fn show_tile_bank(chr_rom: &Vec<u8>, bank: usize) -> (r: Frame)
    requires
        bank <= 1,
        chr_rom@.len() == 0x2000,
    ensures
        r.wf(),
{
    let mut frame = Frame::new();
    let mut tile_y: usize = 0;
    let mut tile_x: usize = 0;
    let bank_base = bank * 0x1000;

    let mut tile_n: usize = 0;
    while tile_n < 255
        invariant
            frame.wf(),
            chr_rom@.len() == 0x2000,
            bank_base <= 0x1000,
            tile_n <= 255,
            tile_x <= 10 * tile_n,
            tile_y <= 10 * tile_n,
        decreases 255 - tile_n,
    {
        if tile_n != 0 && tile_n % 20 == 0 {
            tile_y += 10;
            tile_x = 0;
        }
        let tile_base = bank_base + tile_n * 16;

        let mut y: usize = 0;
        while y < 8
            invariant
                frame.wf(),
                chr_rom@.len() == 0x2000,
                tile_base + 16 <= 0x2000,
                tile_x <= 10 * 255,
                tile_y <= 10 * 255,
            decreases 8 - y,
        {
            let mut upper = chr_rom[tile_base + y];
            let mut lower = chr_rom[tile_base + y + 8];

            let mut k: usize = 0;
            while k < 8
                invariant
                    frame.wf(),
                    y < 8,
                    tile_x <= 10 * 255,
                    tile_y <= 10 * 255,
                decreases 8 - k,
            {
                let x = 7 - k;
                let value = (1 & upper) << 1u8 | (1 & lower);
                upper = upper >> 1u8;
                lower = lower >> 1u8;
                let rgb = if value == 0 {
                    palette::system_palette(0x01)
                } else if value == 1 {
                    palette::system_palette(0x23)
                } else if value == 2 {
                    palette::system_palette(0x27)
                } else {
                    palette::system_palette(0x30)
                };
                frame.set_pixel(tile_x + x, tile_y + y, rgb);
                k += 1;
            }
            y += 1;
        }

        tile_x += 10;
        tile_n += 1;
    }
    frame
}

} // verus!
