use runesco::bus::Bus;
use runesco::cartridge::test_rom;
use runesco::errors::EmuError;
use runesco::joypads::JoypadButton;

fn new_bus() -> Bus {
    Bus::new(test_rom())
}

#[test]
fn test_ram_mirroring_on_bus() {
    let mut bus = new_bus();
    bus.mem_write(0x0005, 0x66).unwrap();
    assert_eq!(bus.mem_read(0x0005).unwrap(), 0x66);
    assert_eq!(bus.mem_read(0x0805).unwrap(), 0x66);
    assert_eq!(bus.mem_read(0x1005).unwrap(), 0x66);
    assert_eq!(bus.mem_read(0x1805).unwrap(), 0x66);

    bus.mem_write(0x1806, 0x77).unwrap();
    assert_eq!(bus.mem_read(0x0006).unwrap(), 0x77);
}

#[test]
fn test_prg_rom_read_and_mirror() {
    let bus = Bus::new(test_rom());
    // test_rom has 32 KiB of PRG filled with 1
    let mut bus = bus;
    assert_eq!(bus.mem_read(0x8000).unwrap(), 1);
    assert_eq!(bus.mem_read(0xffff).unwrap(), 1);
}

#[test]
fn test_status_write_is_refused() {
    let mut bus = new_bus();
    assert_eq!(bus.mem_write(0x2002, 1), Err(EmuError::StatusWrite(0x2002)));
    assert_eq!(bus.mem_write(0x200a, 1), Err(EmuError::StatusWrite(0x200a)));
}

#[test]
fn test_write_only_reads_are_refused() {
    let mut bus = new_bus();
    assert_eq!(bus.mem_read(0x2000), Err(EmuError::WriteOnlyRead(0x2000)));
    assert_eq!(bus.mem_read(0x2006), Err(EmuError::WriteOnlyRead(0x2006)));
    assert_eq!(bus.mem_read(0x4014), Err(EmuError::WriteOnlyRead(0x4014)));
}

#[test]
fn test_rom_write_is_refused() {
    let mut bus = new_bus();
    assert_eq!(bus.mem_write(0x8123, 9), Err(EmuError::RomWrite(0x8123)));
}

#[test]
fn test_oam_dma_through_bus() {
    let mut bus = new_bus();
    // pre-fill $0200..$02FF with 0x66, except the first and last bytes
    for i in 0..256u16 {
        bus.mem_write(0x0200 + i, 0x66).unwrap();
    }
    bus.mem_write(0x0200, 0x77).unwrap();
    bus.mem_write(0x02ff, 0x88).unwrap();

    bus.mem_write(0x2003, 0x10).unwrap(); // OAM address
    bus.mem_write(0x4014, 0x02).unwrap(); // DMA from page 2

    bus.mem_write(0x2003, 0x10).unwrap();
    assert_eq!(bus.mem_read(0x2004).unwrap(), 0x77);
    bus.mem_write(0x2003, 0x0f).unwrap();
    assert_eq!(bus.mem_read(0x2004).unwrap(), 0x88);
    bus.mem_write(0x2003, 0x11).unwrap();
    assert_eq!(bus.mem_read(0x2004).unwrap(), 0x66);
}

#[test]
fn test_controller_serial_reads() {
    let mut bus = new_bus();
    bus.joypad1.set_button_pressed_status(JoypadButton::BUTTON_A, true);
    bus.joypad1.set_button_pressed_status(JoypadButton::START, true);
    bus.joypad1.set_button_pressed_status(JoypadButton::RIGHT, true);
    // mask: A = bit 0, Start = bit 3, Right = bit 7
    let mask = 0b1000_1001u8;

    bus.mem_write(0x4016, 1).unwrap(); // strobe high
    bus.mem_write(0x4016, 0).unwrap(); // strobe low

    for bit in 0..8 {
        let value = bus.mem_read(0x4016).unwrap();
        assert_eq!(value, (mask >> bit) & 1);
    }
    // ninth and later reads report 1
    assert_eq!(bus.mem_read(0x4016).unwrap(), 1);
    assert_eq!(bus.mem_read(0x4016).unwrap(), 1);
}

#[test]
fn test_status_read_through_bus_clears_vblank() {
    let mut bus = new_bus();
    bus.mem_write(0x2000, 0b1000_0000).unwrap(); // enable NMI
    // advance past the start of vertical blank: 82181 dots = 27394 CPU cycles
    for _ in 0..548 {
        bus.tick(50);
    }
    assert!(bus.frame_pending);
    assert!(bus.take_frame_pending());
    assert!(!bus.frame_pending);
    assert!(bus.poll_nmi_status().is_some());
    assert!(bus.poll_nmi_status().is_none());

    let first = bus.mem_read(0x2002).unwrap();
    let second = bus.mem_read(0x2002).unwrap();
    assert_eq!(first >> 7, 1);
    assert_eq!(second >> 7, 0);
}

#[test]
fn test_apu_range_reads_zero_and_ignores_writes() {
    let mut bus = new_bus();
    bus.mem_write(0x4000, 0xff).unwrap();
    bus.mem_write(0x4015, 0xff).unwrap();
    bus.mem_write(0x4017, 0xff).unwrap();
    assert_eq!(bus.mem_read(0x4000).unwrap(), 0);
    assert_eq!(bus.mem_read(0x4015).unwrap(), 0);
}

#[test]
fn test_oam_dma_from_register_page_is_refused() {
    let mut bus = new_bus();
    // a source page overlapping the PPU registers faults at its first byte
    assert_eq!(bus.mem_write(0x4014, 0x20), Err(EmuError::WriteOnlyRead(0x2000)));
    // the page holding the DMA port itself faults at the port
    assert_eq!(bus.mem_write(0x4014, 0x40), Err(EmuError::WriteOnlyRead(0x4014)));
}

#[test]
fn test_data_port_through_bus() {
    let mut bus = new_bus();
    bus.mem_write(0x2006, 0x23).unwrap();
    bus.mem_write(0x2006, 0x05).unwrap();
    bus.mem_write(0x2007, 0x66).unwrap();

    bus.mem_write(0x2006, 0x23).unwrap();
    bus.mem_write(0x2006, 0x05).unwrap();
    bus.mem_read(0x2007).unwrap(); // buffered read
    assert_eq!(bus.mem_read(0x2007).unwrap(), 0x66);
}
