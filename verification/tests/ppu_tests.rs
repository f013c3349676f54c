use runesco::cartridge::Mirroring;
use runesco::ppu::NesPPU;

#[test]
fn test_ppu_vram_writes() {
    let mut ppu = NesPPU::new_empty_rom();
    ppu.write_to_ppu_addr(0x23);
    ppu.write_to_ppu_addr(0x05);
    ppu.write_to_data(0x66);

    assert_eq!(ppu.vram[0x0305], 0x66);
}

#[test]
fn test_ppu_vram_reads() {
    let mut ppu = NesPPU::new_empty_rom();
    ppu.write_to_ctrl(0);
    ppu.vram[0x0305] = 0x66;

    ppu.write_to_ppu_addr(0x23);
    ppu.write_to_ppu_addr(0x05);

    ppu.read_data(); //load_into_buffer
    assert_eq!(ppu.addr.get(), 0x2306);
    assert_eq!(ppu.read_data(), 0x66);
}

#[test]
fn test_ppu_vram_reads_cross_page() {
    let mut ppu = NesPPU::new_empty_rom();
    ppu.write_to_ctrl(0);
    ppu.vram[0x01ff] = 0x66;
    ppu.vram[0x0200] = 0x77;

    ppu.write_to_ppu_addr(0x21);
    ppu.write_to_ppu_addr(0xff);

    ppu.read_data(); //load_into_buffer
    assert_eq!(ppu.read_data(), 0x66);
    assert_eq!(ppu.read_data(), 0x77);
}

#[test]
fn test_ppu_vram_reads_step_32() {
    let mut ppu = NesPPU::new_empty_rom();
    ppu.write_to_ctrl(0b100);
    ppu.vram[0x01ff] = 0x66;
    ppu.vram[0x01ff + 32] = 0x77;
    ppu.vram[0x01ff + 64] = 0x88;

    ppu.write_to_ppu_addr(0x21);
    ppu.write_to_ppu_addr(0xff);

    ppu.read_data(); //load_into_buffer
    assert_eq!(ppu.read_data(), 0x66);
    assert_eq!(ppu.read_data(), 0x77);
    assert_eq!(ppu.read_data(), 0x88);
}

// Horizontal:
//   [0x2000 A ] [0x2400 a ]
//   [0x2800 B ] [0x2C00 b ]
#[test]
fn test_vram_horizontal_mirror() {
    let mut ppu = NesPPU::new_empty_rom();
    ppu.write_to_ppu_addr(0x24);
    ppu.write_to_ppu_addr(0x05);

    ppu.write_to_data(0x66); //write to a

    ppu.write_to_ppu_addr(0x28);
    ppu.write_to_ppu_addr(0x05);

    ppu.write_to_data(0x77); //write to B

    ppu.write_to_ppu_addr(0x20);
    ppu.write_to_ppu_addr(0x05);

    ppu.read_data(); //load into buffer
    assert_eq!(ppu.read_data(), 0x66); //read from A

    ppu.write_to_ppu_addr(0x2C);
    ppu.write_to_ppu_addr(0x05);

    ppu.read_data(); //load into buffer
    assert_eq!(ppu.read_data(), 0x77); //read from b
}

// Vertical:
//   [0x2000 A ] [0x2400 B ]
//   [0x2800 a ] [0x2C00 b ]
#[test]
fn test_vram_vertical_mirror() {
    let mut ppu = NesPPU::new(vec![0; 2048], Mirroring::VERTICAL);

    ppu.write_to_ppu_addr(0x20);
    ppu.write_to_ppu_addr(0x05);

    ppu.write_to_data(0x66); //write to A

    ppu.write_to_ppu_addr(0x2C);
    ppu.write_to_ppu_addr(0x05);

    ppu.write_to_data(0x77); //write to b

    ppu.write_to_ppu_addr(0x28);
    ppu.write_to_ppu_addr(0x05);

    ppu.read_data(); //load into buffer
    assert_eq!(ppu.read_data(), 0x66); //read from a

    ppu.write_to_ppu_addr(0x24);
    ppu.write_to_ppu_addr(0x05);

    ppu.read_data(); //load into buffer
    assert_eq!(ppu.read_data(), 0x77); //read from B
}

#[test]
fn test_read_status_resets_latch() {
    let mut ppu = NesPPU::new_empty_rom();
    ppu.vram[0x0305] = 0x66;

    ppu.write_to_ppu_addr(0x21);
    ppu.write_to_ppu_addr(0x23);
    ppu.write_to_ppu_addr(0x05);

    ppu.read_data(); //load_into_buffer
    assert_ne!(ppu.read_data(), 0x66);

    ppu.read_status();

    ppu.write_to_ppu_addr(0x23);
    ppu.write_to_ppu_addr(0x05);

    ppu.read_data(); //load_into_buffer
    assert_eq!(ppu.read_data(), 0x66);
}

#[test]
fn test_ppu_vram_mirroring() {
    let mut ppu = NesPPU::new_empty_rom();
    ppu.write_to_ctrl(0);
    ppu.vram[0x0305] = 0x66;

    ppu.write_to_ppu_addr(0x63); //0x6305 -> 0x2305
    ppu.write_to_ppu_addr(0x05);

    ppu.read_data(); //load into_buffer
    assert_eq!(ppu.read_data(), 0x66);
}

#[test]
fn test_read_status_resets_vblank() {
    let mut ppu = NesPPU::new_empty_rom();
    ppu.status.set_vblank_status(true);

    let status = ppu.read_status();

    assert_eq!(status >> 7, 1);
    assert_eq!(ppu.status.snapshot() >> 7, 0);
}

#[test]
fn test_oam_read_write() {
    let mut ppu = NesPPU::new_empty_rom();
    ppu.write_to_oam_addr(0x10);
    ppu.write_to_oam_data(0x66);
    ppu.write_to_oam_data(0x77);

    ppu.write_to_oam_addr(0x10);
    assert_eq!(ppu.read_oam_data(), 0x66);

    ppu.write_to_oam_addr(0x11);
    assert_eq!(ppu.read_oam_data(), 0x77);
}

#[test]
fn test_oam_dma() {
    let mut ppu = NesPPU::new_empty_rom();

    let mut data = [0x66; 256];
    data[0] = 0x77;
    data[255] = 0x88;

    ppu.write_to_oam_addr(0x10);
    ppu.write_oam_dma(&data);

    ppu.write_to_oam_addr(0xf); //wrap around
    assert_eq!(ppu.read_oam_data(), 0x88);

    ppu.write_to_oam_addr(0x10);
    assert_eq!(ppu.read_oam_data(), 0x77);

    ppu.write_to_oam_addr(0x11);
    assert_eq!(ppu.read_oam_data(), 0x66);
}

#[test]
fn test_palette_write_mirror() {
    let mut ppu = NesPPU::new_empty_rom();

    ppu.write_to_ppu_addr(0x3f);
    ppu.write_to_ppu_addr(0x10);
    ppu.write_to_data(0x66);

    ppu.write_to_ppu_addr(0x3f);
    ppu.write_to_ppu_addr(0x00);
    ppu.read_data(); // dummy read, palette reads bypass the buffer anyway
    ppu.write_to_ppu_addr(0x3f);
    ppu.write_to_ppu_addr(0x00);
    assert_eq!(ppu.read_data(), 0x66);

    // and the other direction: a write at $3F00 is observable at $3F10
    ppu.write_to_ppu_addr(0x3f);
    ppu.write_to_ppu_addr(0x00);
    ppu.write_to_data(0x42);
    ppu.write_to_ppu_addr(0x3f);
    ppu.write_to_ppu_addr(0x10);
    assert_eq!(ppu.read_data(), 0x42);
}

#[test]
fn test_vblank_nmi_edge() {
    let mut ppu = NesPPU::new_empty_rom();
    ppu.write_to_ctrl(0b1000_0000);

    // walk to dot 82100: scanline 240, just before vertical blank
    for _ in 0..821 {
        ppu.tick(100);
    }
    assert!(ppu.nmi_interrupt.is_none());

    // cross into scanline 241
    ppu.tick(100);
    assert!(ppu.nmi_interrupt.is_some());

    let status = ppu.read_status();
    assert_eq!(status >> 7, 1);
    assert_eq!(ppu.status.snapshot() >> 7, 0);
}

#[test]
fn test_tick_frame_count() {
    let mut ppu = NesPPU::new_empty_rom();
    let mut frames: u32 = 0;
    let mut total: u64 = 0;
    while total < 200000 {
        if ppu.tick(250) {
            frames += 1;
        }
        total += 250;
    }
    // 200000 dots cover two whole 89342-dot frames
    assert_eq!(frames, 2);
}
