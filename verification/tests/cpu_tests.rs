use runesco::bus::Bus;
use runesco::cartridge::{create_rom, Rom, TestRom};
use runesco::cpu::CPU;
use runesco::errors::EmuError;

/// A mapper-0 cartridge whose 16 KiB program ROM starts with `program` and
/// whose reset vector points at `$8000`.
fn program_rom(program: &[u8]) -> Rom {
    let mut prg = vec![0u8; 0x4000];
    for (i, b) in program.iter().enumerate() {
        prg[i] = *b;
    }
    prg[0x3ffc] = 0x00;
    prg[0x3ffd] = 0x80;
    let header = vec![
        0x4E, 0x45, 0x53, 0x1A, 0x01, 0x01, 0x00, 0x00, 0x00, 0x00, 0x00, 0x00, 0x00, 0x00, 0x00,
        0x00,
    ];
    let raw = create_rom(TestRom {
        header,
        trainer: None,
        pgp_rom: prg,
        chr_rom: vec![0; 8192],
    });
    Rom::new(&raw).unwrap()
}

fn cpu_with_program(program: &[u8]) -> CPU {
    let bus = Bus::new(program_rom(program));
    let mut cpu = CPU::new(bus);
    cpu.reset();
    cpu
}

fn run_program(program: &[u8]) -> CPU {
    let mut cpu = cpu_with_program(program);
    cpu.run().unwrap();
    cpu
}

#[test]
fn test_lda_immediate_flags() {
    let cpu = run_program(&[0xa9, 0x05, 0x00]);
    assert_eq!(cpu.register_a, 5);
    assert_eq!(cpu.status & 0b0000_0010, 0);
    assert_eq!(cpu.status & 0b1000_0000, 0);

    let cpu = run_program(&[0xa9, 0x00, 0x00]);
    assert_eq!(cpu.status & 0b0000_0010, 0b0000_0010);

    let cpu = run_program(&[0xa9, 0x80, 0x00]);
    assert_eq!(cpu.status & 0b1000_0000, 0b1000_0000);
}

#[test]
fn test_lda_flags_for_every_value() {
    for v in 0..=255u8 {
        let cpu = run_program(&[0xa9, v, 0x00]);
        assert_eq!(cpu.register_a, v);
        assert_eq!(cpu.status & 0b0000_0010 != 0, v == 0);
        assert_eq!(cpu.status & 0b1000_0000 != 0, v >= 128);
    }
}

#[test]
fn test_inx_wrap() {
    let cpu = run_program(&[0xa9, 0xff, 0xaa, 0xe8, 0xe8, 0x00]);
    assert_eq!(cpu.register_x, 1);
}

#[test]
fn test_jmp_absolute() {
    let cpu = run_program(&[0xa9, 0x03, 0x4c, 0x07, 0x80, 0xa9, 0x30, 0x8d, 0x00, 0x02, 0x00]);
    assert_eq!(cpu.bus.cpu_vram[0x0200], 0x03);
}

#[test]
fn test_bne_negative_offset() {
    let cpu = run_program(&[
        0xa2, 0x08, 0xca, 0x8e, 0x00, 0x02, 0xe0, 0x03, 0xd0, 0xf8, 0x8e, 0x01, 0x02, 0x00,
    ]);
    assert_eq!(cpu.register_x, 3);
    assert_eq!(cpu.bus.cpu_vram[0x0201], 3);
}

#[test]
fn test_bit() {
    let mut cpu = cpu_with_program(&[0xa9, 0x3f, 0x24, 0x20, 0x00]);
    cpu.mem_write(0x20, 0xc0).unwrap();
    cpu.run().unwrap();
    assert_eq!(cpu.status & 0b0000_0010, 0b0000_0010); // Z
    assert_eq!(cpu.status & 0b1000_0000, 0b1000_0000); // N
    assert_eq!(cpu.status & 0b0100_0000, 0b0100_0000); // V
}

#[test]
fn test_cmp_flags() {
    let cpu = run_program(&[0xa9, 0x10, 0xc9, 0x10, 0x00]);
    assert_eq!(cpu.status & 0b0000_0001, 1); // C: 0x10 >= 0x10
    assert_eq!(cpu.status & 0b0000_0010, 0b0000_0010); // Z: equal

    let cpu = run_program(&[0xa9, 0x10, 0xc9, 0x20, 0x00]);
    assert_eq!(cpu.status & 0b0000_0001, 0); // C clear: 0x10 < 0x20
    assert_eq!(cpu.status & 0b0000_0010, 0); // Z clear
    assert_eq!(cpu.status & 0b1000_0000, 0b1000_0000); // N: 0xf0 is negative
}

#[test]
fn test_adc_carry_and_overflow() {
    // 0x50 + 0x50: signed overflow, no carry
    let cpu = run_program(&[0xa9, 0x50, 0x69, 0x50, 0x00]);
    assert_eq!(cpu.register_a, 0xa0);
    assert_eq!(cpu.status & 0b0100_0000, 0b0100_0000); // V
    assert_eq!(cpu.status & 0b0000_0001, 0); // no C

    // 0xff + 0x00 + carry-in: wraps to zero with carry out
    let cpu = run_program(&[0xa9, 0xff, 0x38, 0x69, 0x00, 0x00]);
    assert_eq!(cpu.register_a, 0x00);
    assert_eq!(cpu.status & 0b0000_0001, 1); // C
    assert_eq!(cpu.status & 0b0000_0010, 0b0000_0010); // Z
}

#[test]
fn test_sbc() {
    let cpu = run_program(&[0xa9, 0x05, 0x38, 0xe9, 0x03, 0x00]);
    assert_eq!(cpu.register_a, 0x02);
    assert_eq!(cpu.status & 0b0000_0001, 1); // no borrow
}

#[test]
fn test_stack_pushes_decrement_sp() {
    let cpu = run_program(&[0xa9, 0x42, 0x48, 0x48, 0x48, 0x00]);
    assert_eq!(cpu.stack_pointer, 0xfd - 3);
    assert_eq!(cpu.bus.cpu_vram[0x01fd], 0x42);
    assert_eq!(cpu.bus.cpu_vram[0x01fc], 0x42);
    assert_eq!(cpu.bus.cpu_vram[0x01fb], 0x42);
}

#[test]
fn test_php_plp_round_trip() {
    // SEC, SED, PHP, LDA #1 (clears nothing relevant), PLP
    let cpu = run_program(&[0x38, 0xf8, 0x08, 0xa9, 0x01, 0x28, 0x00]);
    assert_eq!(cpu.status & 0b0000_0001, 1); // C restored
    assert_eq!(cpu.status & 0b0000_1000, 0b0000_1000); // D restored
    assert_eq!(cpu.status & 0b0010_0000, 0b0010_0000); // bit 5 forced on
}

#[test]
fn test_jsr_rts() {
    let cpu = run_program(&[0x20, 0x06, 0x80, 0xa9, 0x01, 0x00, 0xa9, 0x05, 0x60]);
    assert_eq!(cpu.register_a, 1);
}

#[test]
fn test_unknown_opcode_faults() {
    let mut cpu = cpu_with_program(&[0x9e, 0x00, 0x02, 0x00]);
    assert_eq!(cpu.run(), Err(EmuError::UnknownOpcode(0x9e)));
}

#[test]
fn test_write_to_rom_faults() {
    let mut cpu = cpu_with_program(&[0xa9, 0x01, 0x8d, 0x00, 0x90, 0x00]);
    assert_eq!(cpu.run(), Err(EmuError::RomWrite(0x9000)));
}

#[test]
fn test_read_of_write_only_register_faults() {
    let mut cpu = cpu_with_program(&[0xad, 0x00, 0x20, 0x00]);
    assert_eq!(cpu.run(), Err(EmuError::WriteOnlyRead(0x2000)));
}

#[test]
fn test_load_and_run_in_work_ram() {
    let bus = Bus::new(program_rom(&[0x00]));
    let mut cpu = CPU::new(bus);
    cpu.load_and_run(vec![0xa9, 0x07, 0x00]).unwrap();
    assert_eq!(cpu.register_a, 7);
}

#[test]
fn test_run_with_callback_counts_steps() {
    let mut cpu = cpu_with_program(&[0xa9, 0x05, 0xaa, 0x00]);
    let steps = std::cell::Cell::new(0u32);
    cpu.run_with_callback(|_c: &mut CPU| {
        steps.set(steps.get() + 1);
    })
    .unwrap();
    // LDA, TAX, BRK: the callback runs before each of the three instructions
    assert_eq!(steps.get(), 3);
    assert_eq!(cpu.register_x, 5);
}

#[test]
fn test_run_with_callback_can_inject_input() {
    // the callback writes work RAM before the LDA $20 executes
    let mut cpu = cpu_with_program(&[0xa5, 0x20, 0x00]);
    cpu.run_with_callback(|c: &mut CPU| {
        c.mem_write(0x20, 0x42).unwrap();
    })
    .unwrap();
    assert_eq!(cpu.register_a, 0x42);
}

#[test]
fn test_get_absolute_address_zero_page_x() {
    let mut cpu = cpu_with_program(&[0x00]);
    cpu.mem_write(0x0010, 0x80).unwrap();
    cpu.register_x = 0x0f;
    let (addr, crossed) = cpu
        .get_absolute_address(&runesco::cpu::AddressingMode::ZeroPage_X, 0x0010)
        .unwrap();
    assert_eq!(addr, 0x8f);
    assert!(!crossed);
}

#[test]
fn test_step_advances_pc_by_opcode_len() {
    let mut cpu = cpu_with_program(&[0xa9, 0x05, 0xea, 0xad, 0x00, 0x02, 0x00]);
    let pc0 = cpu.program_counter;
    cpu.step().unwrap(); // LDA #imm: 2 bytes
    assert_eq!(cpu.program_counter, pc0 + 2);
    cpu.step().unwrap(); // NOP: 1 byte
    assert_eq!(cpu.program_counter, pc0 + 3);
    cpu.step().unwrap(); // LDA abs: 3 bytes
    assert_eq!(cpu.program_counter, pc0 + 6);
}

#[test]
fn test_sta_indirect_y() {
    // pointer at $10 -> $0200, Y = 1
    let cpu = run_program(&[
        0xa0, 0x01, // LDY #1
        0xa9, 0x00, 0x85, 0x10, // pointer low
        0xa9, 0x02, 0x85, 0x11, // pointer high
        0xa9, 0x77, 0x91, 0x10, // STA ($10),Y
        0x00,
    ]);
    assert_eq!(cpu.bus.cpu_vram[0x0201], 0x77);
}

#[test]
fn test_lda_indirect_x() {
    let cpu = run_program(&[
        0xa9, 0x66, 0x8d, 0x34, 0x02, // value at $0234
        0xa2, 0x02, // X = 2
        0xa9, 0x34, 0x85, 0x12, // pointer low at $10+X
        0xa9, 0x02, 0x85, 0x13, // pointer high
        0xa1, 0x10, // LDA ($10,X)
        0x00,
    ]);
    assert_eq!(cpu.register_a, 0x66);
}

#[test]
fn test_asl_memory() {
    let cpu = run_program(&[0xa9, 0x81, 0x85, 0x20, 0x06, 0x20, 0x00]);
    assert_eq!(cpu.bus.cpu_vram[0x20], 0x02);
    assert_eq!(cpu.status & 0b0000_0001, 1); // C takes the old bit 7
}

#[test]
fn test_cycle_accounting() {
    // LDA #imm costs 2 cycles; BRK stops before charging its own
    let cpu = run_program(&[0xa9, 0x05, 0x00]);
    assert_eq!(cpu.bus.cycles, 2);

    // a taken branch without page crossing adds one cycle to its base 2
    let cpu = run_program(&[0xa9, 0x00, 0xf0, 0x00, 0x00]);
    assert_eq!(cpu.bus.cycles, 2 + 3);
}

#[test]
fn test_nmi_is_serviced_through_vector() {
    // main program enables the NMI and spins; the handler loads A and stops
    let mut prg = vec![0u8; 0x4000];
    let main_code = [
        0xa9, 0x80, 0x8d, 0x00, 0x20, // CTRL <- $80: enable NMI
        0x4c, 0x05, 0x80, // spin: JMP $8005
    ];
    for (i, b) in main_code.iter().enumerate() {
        prg[i] = *b;
    }
    prg[0x10] = 0xa9; // handler at $8010: LDA #$42
    prg[0x11] = 0x42;
    prg[0x12] = 0x00; // BRK
    prg[0x3ffa] = 0x10; // NMI vector -> $8010
    prg[0x3ffb] = 0x80;
    prg[0x3ffc] = 0x00; // reset vector -> $8000
    prg[0x3ffd] = 0x80;
    let header = vec![
        0x4E, 0x45, 0x53, 0x1A, 0x01, 0x01, 0x00, 0x00, 0x00, 0x00, 0x00, 0x00, 0x00, 0x00, 0x00,
        0x00,
    ];
    let raw = create_rom(TestRom {
        header,
        trainer: None,
        pgp_rom: prg,
        chr_rom: vec![0; 8192],
    });
    let bus = Bus::new(Rom::new(&raw).unwrap());
    let mut cpu = CPU::new(bus);
    cpu.reset();

    let mut saw_frame = false;
    loop {
        let info = cpu.step().unwrap();
        saw_frame = saw_frame || info.frame;
        if info.brk {
            break;
        }
    }
    assert_eq!(cpu.register_a, 0x42);
    assert!(saw_frame);
}
