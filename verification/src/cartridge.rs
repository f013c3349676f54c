//! Cartridge loader: parses an iNES v1 container into a program-ROM image, a
//! character-ROM image, a mirroring kind and a mapper id.

use vstd::prelude::*;

verus! {

pub const PRG_ROM_PAGE_SIZE: usize = 16384;

pub const CHR_ROM_PAGE_SIZE: usize = 8192;

/// How the two physical 1 KiB name tables are mapped onto the four logical
/// ones; copied from the cartridge into the PPU.
#[allow(non_camel_case_types)]
#[derive(Debug, PartialEq, Eq, Clone, Copy, Structural)]
pub enum Mirroring {
    VERTICAL,
    HORIZONTAL,
    FOUR_SCREEN,
}

pub struct Rom {
    pub prg_rom: Vec<u8>,
    pub chr_rom: Vec<u8>,
    pub mapper: u8,
    pub screen_mirroring: Mirroring,
}

/// The magic bytes `4E 45 53 1A` that open every iNES image.
pub open spec fn spec_has_nes_tag(raw: Seq<u8>) -> bool {
    &&& raw.len() >= 4
    &&& raw[0] == 0x4e
    &&& raw[1] == 0x45
    &&& raw[2] == 0x53
    &&& raw[3] == 0x1a
}

/// iNES version field: bits 2-3 of flag byte 7; nonzero means NES 2.0.
pub open spec fn spec_ines_version(flag7: u8) -> u8 {
    (flag7 >> 2) & 0b11
}

/// Mapper id: high nibble of flag 7 joined with the high nibble of flag 6.
pub open spec fn spec_mapper(flag6: u8, flag7: u8) -> u8 {
    (flag7 & 0xf0) | (flag6 >> 4)
}

/// Mirroring kind: flag 6 bit 3 selects four-screen, else bit 0 selects
/// vertical over horizontal.
pub open spec fn spec_mirroring(flag6: u8) -> Mirroring {
    if flag6 & 0b1000 != 0 {
        Mirroring::FOUR_SCREEN
    } else if flag6 & 0b1 != 0 {
        Mirroring::VERTICAL
    } else {
        Mirroring::HORIZONTAL
    }
}

/// Offset of the program ROM: the 16-byte header, plus a 512-byte trainer
/// when flag 6 bit 2 is set.
pub open spec fn spec_prg_start(flag6: u8) -> int {
    if flag6 & 0b100 != 0 {
        528int
    } else {
        16int
    }
}

pub open spec fn spec_prg_len(raw: Seq<u8>) -> int {
    raw[4] * 16384
}

pub open spec fn spec_chr_len(raw: Seq<u8>) -> int {
    raw[5] * 8192
}

/// A well-formed image holds the header, the optional trainer, and both ROMs.
pub open spec fn spec_image_complete(raw: Seq<u8>) -> bool {
    raw.len() >= spec_prg_start(raw[6]) + spec_prg_len(raw) + spec_chr_len(raw)
}

/// Copies `src[start .. start + len]` into a fresh vector.
fn copy_range(src: &Vec<u8>, start: usize, len: usize) -> (r: Vec<u8>)
    requires
        start + len <= src.len(),
    ensures
        r@ == src@.subrange(start as int, start as int + len as int),
{
    let mut r: Vec<u8> = Vec::new();
    let mut i: usize = 0;
    while i < len
        invariant
            start + len <= src.len(),
            i <= len,
            r@ == src@.subrange(start as int, start as int + i as int),
        decreases len - i,
    {
        r.push(src[start + i]);
        i += 1;
        proof {
            assert(r@ =~= src@.subrange(start as int, start as int + i as int));
        }
    }
    r
}

impl Rom {
    /// Parses an iNES v1 image. Success is owed exactly to images that carry
    /// the magic tag, are not NES 2.0, and are long enough to hold the sizes
    /// their header declares.
    pub fn new(raw: &Vec<u8>) -> (r: Result<Rom, String>)
        ensures
            r is Ok <==> (raw@.len() >= 16 && spec_has_nes_tag(raw@) && spec_ines_version(raw@[7])
                == 0 && spec_image_complete(raw@)),
            r matches Ok(rom) ==> {
                &&& rom.mapper == spec_mapper(raw@[6], raw@[7])
                &&& rom.screen_mirroring == spec_mirroring(raw@[6])
                &&& rom.prg_rom@ == raw@.subrange(
                    spec_prg_start(raw@[6]),
                    spec_prg_start(raw@[6]) + spec_prg_len(raw@),
                )
                &&& rom.chr_rom@ == raw@.subrange(
                    spec_prg_start(raw@[6]) + spec_prg_len(raw@),
                    spec_prg_start(raw@[6]) + spec_prg_len(raw@) + spec_chr_len(raw@),
                )
            },
            raw@.len() < 16 ==> (r matches Err(m) && m@ == "File is truncated"@),
            raw@.len() >= 16 && !spec_has_nes_tag(raw@) ==> (r matches Err(m) && m@
                == "File is not in iNES file format"@),
            raw@.len() >= 16 && spec_has_nes_tag(raw@) && spec_ines_version(raw@[7]) != 0 ==> (
            r matches Err(m) && m@ == "NES2.0 format is not supported"@),
            raw@.len() >= 16 && spec_has_nes_tag(raw@) && spec_ines_version(raw@[7]) == 0
                && !spec_image_complete(raw@) ==> (r matches Err(m) && m@
                == "File is truncated"@),
    {
        broadcast use vstd::string::to_string_from_display_ensures_for_str;

        if raw.len() < 16 {
            return Err("File is truncated".to_string());
        }
        if !(raw[0] == 0x4e && raw[1] == 0x45 && raw[2] == 0x53 && raw[3] == 0x1a) {
            return Err("File is not in iNES file format".to_string());
        }

        let flag6 = raw[6];
        let flag7 = raw[7];

        let mapper = (flag7 & 0xf0) | (flag6 >> 4);

        let ines_ver = (flag7 >> 2) & 0b11;
        if ines_ver != 0 {
            return Err("NES2.0 format is not supported".to_string());
        }

        let four_screen = flag6 & 0b1000 != 0;
        let vertical_mirroring = flag6 & 0b1 != 0;
        let screen_mirroring = if four_screen {
            Mirroring::FOUR_SCREEN
        } else if vertical_mirroring {
            Mirroring::VERTICAL
        } else {
            Mirroring::HORIZONTAL
        };

        let prg_rom_size = (raw[4] as usize) * PRG_ROM_PAGE_SIZE;
        let chr_rom_size = (raw[5] as usize) * CHR_ROM_PAGE_SIZE;

        let skip_trainer = flag6 & 0b100 != 0;
        let prg_rom_start: usize = 16 + if skip_trainer {
            512
        } else {
            0
        };
        let chr_rom_start = prg_rom_start + prg_rom_size;

        if raw.len() < chr_rom_start + chr_rom_size {
            return Err("File is truncated".to_string());
        }

        Ok(
            Rom {
                prg_rom: copy_range(raw, prg_rom_start, prg_rom_size),
                chr_rom: copy_range(raw, chr_rom_start, chr_rom_size),
                mapper,
                screen_mirroring,
            },
        )
    }
}

/// Building blocks of an iNES image, for assembling test cartridges.
pub struct TestRom {
    pub header: Vec<u8>,
    pub trainer: Option<Vec<u8>>,
    pub pgp_rom: Vec<u8>,
    pub chr_rom: Vec<u8>,
}

fn append_bytes(dst: &mut Vec<u8>, src: &Vec<u8>)
    ensures
        final(dst)@ == old(dst)@ + src@,
{
    let mut i: usize = 0;
    while i < src.len()
        invariant
            i <= src.len(),
            dst@ == old(dst)@ + src@.subrange(0, i as int),
        decreases src.len() - i,
    {
        dst.push(src[i]);
        i += 1;
        proof {
            assert(dst@ =~= old(dst)@ + src@.subrange(0, i as int));
        }
    }
    proof {
        assert(src@.subrange(0, src@.len() as int) =~= src@);
    }
}

/// A vector of `count` copies of `value`.
fn filled_vec(value: u8, count: usize) -> (r: Vec<u8>)
    ensures
        r@ == Seq::<u8>::new(count as nat, |i: int| value),
{
    let mut r: Vec<u8> = Vec::new();
    let mut i: usize = 0;
    while i < count
        invariant
            i <= count,
            r@ == Seq::<u8>::new(i as nat, |j: int| value),
        decreases count - i,
    {
        r.push(value);
        i += 1;
        proof {
            assert(r@ =~= Seq::<u8>::new(i as nat, |j: int| value));
        }
    }
    r
}

/// Concatenates the pieces of a test cartridge into one iNES image.
pub fn create_rom(rom: TestRom) -> (r: Vec<u8>)
    ensures
        r@ == rom.header@ + (match rom.trainer {
            Some(t) => t@,
            None => Seq::<u8>::empty(),
        }) + rom.pgp_rom@ + rom.chr_rom@,
{
    let ghost trainer_view: Seq<u8> = match &rom.trainer {
        Some(t) => t@,
        None => Seq::<u8>::empty(),
    };
    let mut result: Vec<u8> = Vec::new();

    append_bytes(&mut result, &rom.header);
    match rom.trainer {
        Some(t) => {
            append_bytes(&mut result, &t);
        },
        None => {
            proof {
                assert(result@ =~= rom.header@ + trainer_view);
            }
        },
    }
    append_bytes(&mut result, &rom.pgp_rom);
    append_bytes(&mut result, &rom.chr_rom);
    proof {
        assert(result@ =~= rom.header@ + trainer_view + rom.pgp_rom@ + rom.chr_rom@);
    }
    result
}

/// A ready-made mapper-3-flagged cartridge with 32 KiB of program ROM and
/// 8 KiB of character ROM, vertically mirrored.
pub fn test_rom() -> (r: Rom)
    ensures
        r.prg_rom@.len() == 0x8000,
        r.chr_rom@.len() == 0x2000,
        r.screen_mirroring == Mirroring::VERTICAL,
        r.mapper == 3,
{
    let header: Vec<u8> = vec![
        0x4e,
        0x45,
        0x53,
        0x1a,
        0x02,
        0x01,
        0x31,
        0x00,
        0x00,
        0x00,
        0x00,
        0x00,
        0x00,
        0x00,
        0x00,
        0x00,
    ];
    let pgp_rom = filled_vec(1, 2 * PRG_ROM_PAGE_SIZE);
    let chr_rom = filled_vec(2, CHR_ROM_PAGE_SIZE);
    let raw = create_rom(TestRom { header, trainer: None, pgp_rom, chr_rom });

    proof {
        assert((0u8 >> 2) & 0b11 == 0 && (0u8 & 0xf0) | (0x31u8 >> 4) == 3 && 0x31u8 & 0b1000 == 0
            && 0x31u8 & 0b1 == 1 && 0x31u8 & 0b100 == 0) by (bit_vector);
    }

    match Rom::new(&raw) {
        Ok(rom) => rom,
        Err(_) => {
            proof {
                assert(false);
            }
            Rom {
                prg_rom: filled_vec(1, 0x8000),
                chr_rom: filled_vec(2, 0x2000),
                mapper: 3,
                screen_mirroring: Mirroring::VERTICAL,
            }
        },
    }
}

} // verus!
