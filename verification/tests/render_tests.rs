use runesco::cartridge::Mirroring;
use runesco::joypads::Joypad;
use runesco::ppu::NesPPU;
use runesco::render::frame::Frame;
use runesco::render::{render, show_tile, show_tile_bank};

#[test]
fn test_frame_dimensions() {
    let frame = Frame::new();
    assert_eq!(frame.data.len(), 256 * 240 * 3);
    assert!(frame.data.iter().all(|b| *b == 0));
}

#[test]
fn test_set_pixel_writes_rgb() {
    let mut frame = Frame::new();
    frame.set_pixel(2, 1, (0x11, 0x22, 0x33));
    let base = 1 * 3 * 256 + 2 * 3;
    assert_eq!(frame.data[base], 0x11);
    assert_eq!(frame.data[base + 1], 0x22);
    assert_eq!(frame.data[base + 2], 0x33);

    // out-of-range coordinates are dropped
    let before = frame.data.clone();
    frame.set_pixel(256, 0, (0xff, 0xff, 0xff));
    frame.set_pixel(0, 240, (0xff, 0xff, 0xff));
    assert_eq!(frame.data, before);
}

#[test]
fn test_render_paints_backdrop() {
    let ppu = NesPPU::new(vec![0; 8192], Mirroring::HORIZONTAL);
    let mut frame = Frame::new();
    render(&ppu, &mut frame);
    // with cleared memories every background pixel shows system colour 0
    assert_eq!(frame.data[0], 0x80);
    assert_eq!(frame.data[1], 0x80);
    assert_eq!(frame.data[2], 0x80);
    assert_eq!(frame.data.len(), 256 * 240 * 3);
}

#[test]
fn test_show_tile_decodes_planes() {
    let mut chr = vec![0u8; 8192];
    // tile 0, row 0: upper plane all ones, lower plane all zeros => value 2
    chr[0] = 0xff;
    let frame = show_tile(&chr, 0, 0);
    // system colour 0x27
    assert_eq!(frame.data[0], 0xff);
    assert_eq!(frame.data[1], 0x9c);
    assert_eq!(frame.data[2], 0x12);
    // row 1 is empty => value 0 => system colour 0x01
    let base = 1 * 3 * 256;
    assert_eq!(frame.data[base], 0x00);
    assert_eq!(frame.data[base + 1], 0x3d);
    assert_eq!(frame.data[base + 2], 0xa6);
}

#[test]
fn test_show_tile_bank_fills_frame() {
    let chr = vec![0u8; 8192];
    let frame = show_tile_bank(&chr, 1);
    assert_eq!(frame.data.len(), 256 * 240 * 3);
}

#[test]
fn test_joypad_serial_protocol() {
    let mut joypad = Joypad::new();
    joypad.set_button_pressed_status(runesco::joypads::JoypadButton::BUTTON_B, true);
    joypad.set_button_pressed_status(runesco::joypads::JoypadButton::DOWN, true);
    // B = bit 1, Down = bit 5
    let mask = 0b0010_0010u8;

    joypad.write(1);
    // with the strobe high every read reports button A without advancing
    assert_eq!(joypad.read(), 0);
    assert_eq!(joypad.read(), 0);
    joypad.write(0);

    for bit in 0..8 {
        assert_eq!(joypad.read(), (mask >> bit) & 1);
    }
    assert_eq!(joypad.read(), 1);
    assert_eq!(joypad.read(), 1);
}

#[test]
fn test_joypad_release() {
    let mut joypad = Joypad::new();
    joypad.set_button_pressed_status(runesco::joypads::JoypadButton::BUTTON_A, true);
    assert_eq!(joypad.button_status, 1);
    joypad.set_button_pressed_status(runesco::joypads::JoypadButton::BUTTON_A, false);
    assert_eq!(joypad.button_status, 0);
}

#[test]
fn test_render_background_tile_colors() {
    let mut chr = vec![0u8; 8192];
    // tile 1, row 0: first plane all ones, second all zeros => colour value 1
    chr[16] = 0xff;
    let mut ppu = NesPPU::new(chr, Mirroring::HORIZONTAL);
    ppu.vram[0] = 1; // top-left cell shows tile 1
    ppu.palette_table[1] = 0x21; // palette entry for value 1

    let mut frame = Frame::new();
    render(&ppu, &mut frame);

    // pixel (0,0): system colour 0x21
    assert_eq!(frame.data[0], 0x0f);
    assert_eq!(frame.data[1], 0xd7);
    assert_eq!(frame.data[2], 0xff);
    // pixel (0,1): row 1 of the tile is empty => backdrop colour 0
    let base = 768;
    assert_eq!(frame.data[base], 0x80);
    assert_eq!(frame.data[base + 1], 0x80);
    assert_eq!(frame.data[base + 2], 0x80);
}
