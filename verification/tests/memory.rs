use chip8::font::font_table;
use chip8::{Cpu, CpuError};

fn run(rom: &[u8], steps: usize) -> Cpu {
    let mut cpu = Cpu::with_rom(rom).unwrap();
    for _ in 0..steps {
        cpu.step().unwrap();
    }
    cpu
}

fn run_original_mem_acc(rom: &[u8], steps: usize) -> Cpu {
    let mut cpu = Cpu::with_rom_and_options(rom, false, true).unwrap();
    for _ in 0..steps {
        cpu.step().unwrap();
    }
    cpu
}

#[test]
fn font_is_at_address_zero() {
    let cpu = Cpu::new();
    let expected: [u8; 80] = [
        0xF0, 0x90, 0x90, 0x90, 0xF0, 0x20, 0x60, 0x20, 0x20, 0x70, 0xF0, 0x10, 0xF0, 0x80, 0xF0,
        0xF0, 0x10, 0xF0, 0x10, 0xF0, 0x90, 0x90, 0xF0, 0x10, 0x10, 0xF0, 0x80, 0xF0, 0x10, 0xF0,
        0xF0, 0x80, 0xF0, 0x90, 0xF0, 0xF0, 0x10, 0x20, 0x40, 0x40, 0xF0, 0x90, 0xF0, 0x90, 0xF0,
        0xF0, 0x90, 0xF0, 0x10, 0xF0, 0xF0, 0x90, 0xF0, 0x90, 0x90, 0xE0, 0x90, 0xE0, 0x90, 0xE0,
        0xF0, 0x80, 0x80, 0x80, 0xF0, 0xE0, 0x90, 0x90, 0x90, 0xE0, 0xF0, 0x80, 0xF0, 0x80, 0xF0,
        0xF0, 0x80, 0xF0, 0x80, 0x80,
    ];
    assert_eq!(font_table(), expected);
    for (addr, byte) in expected.iter().enumerate() {
        assert_eq!(cpu.memory_byte(addr), Some(*byte));
    }
    for addr in 80..4096 {
        assert_eq!(cpu.memory_byte(addr), Some(0));
    }
    assert_eq!(cpu.memory_byte(4096), None);
}

#[test]
fn rom_is_loaded_behind_reserved_area() {
    let cpu = Cpu::with_rom(&[0xAB, 0xCD, 0xEF]).unwrap();
    assert_eq!(cpu.memory_byte(511), Some(0));
    assert_eq!(cpu.memory_byte(512), Some(0xAB));
    assert_eq!(cpu.memory_byte(513), Some(0xCD));
    assert_eq!(cpu.memory_byte(514), Some(0xEF));
    assert_eq!(cpu.memory_byte(515), Some(0));
    assert_eq!(cpu.memory_byte(0), Some(0xF0));
    assert_eq!(cpu.program_counter(), 512);
}

#[test]
fn largest_rom_fills_memory() {
    let mut rom = vec![0u8; 4096 - 512];
    rom[0] = 0x11;
    rom[3583] = 0x99;
    let cpu = Cpu::with_rom(&rom).unwrap();
    assert_eq!(cpu.memory_byte(512), Some(0x11));
    assert_eq!(cpu.memory_byte(4095), Some(0x99));
}

#[test]
fn rom_too_large_is_out_of_bounds() {
    let rom = vec![0u8; 4096 - 512 + 1];
    assert!(matches!(Cpu::with_rom(&rom), Err(CpuError::OutOfBounds)));
    assert!(matches!(Cpu::with_rom_and_options(&rom, true, true), Err(CpuError::OutOfBounds)));
}

#[test]
fn empty_rom_is_a_new_machine() {
    let cpu = Cpu::with_rom(&[]).unwrap();
    for addr in 512..4096 {
        assert_eq!(cpu.memory_byte(addr), Some(0));
    }
    assert_eq!(cpu.program_counter(), 512);
}

#[test]
fn load_address_register() {
    let cpu = run(&[0xAF, 0xFF], 1);
    assert_eq!(cpu.address_register(), 0xFFF);
    assert_eq!(cpu.program_counter(), 514);
}

#[test]
fn add_to_address_register() {
    let cpu = run(&[0xA3, 0x00, 0x61, 0x21, 0xF1, 0x1E], 3);
    assert_eq!(cpu.address_register(), 0x321);
    // The flag register is no carry here.
    assert_eq!(cpu.register(0xF), Some(0));
}

#[test]
fn add_to_address_register_up_to_last_address() {
    let cpu = run(&[0xAF, 0x00, 0x61, 0xFF, 0xF1, 0x1E], 3);
    assert_eq!(cpu.address_register(), 0xFFF);
}

#[test]
fn add_to_address_register_beyond_memory_is_out_of_bounds() {
    let mut cpu = Cpu::with_rom(&[0xAF, 0x01, 0x61, 0xFF, 0xF1, 0x1E]).unwrap();
    cpu.step().unwrap();
    cpu.step().unwrap();
    assert_eq!(cpu.step(), Err(CpuError::OutOfBounds));
    assert_eq!(cpu.address_register(), 0xF01);
    assert_eq!(cpu.program_counter(), 516);
}

#[test]
fn font_address_of_digit() {
    let cpu = run(&[0x63, 0x0A, 0xF3, 0x29], 2);
    assert_eq!(cpu.address_register(), 50);
    let cpu = run(&[0x63, 0x00, 0xF3, 0x29], 2);
    assert_eq!(cpu.address_register(), 0);
    let cpu = run(&[0x63, 0x0F, 0xF3, 0x29], 2);
    assert_eq!(cpu.address_register(), 75);
    let cpu = run(&[0x63, 0xFF, 0xF3, 0x29], 2);
    assert_eq!(cpu.address_register(), 1275);
}

#[test]
fn bcd_of_157() {
    let cpu = run(&[0x64, 157, 0xA3, 0x00, 0xF4, 0x33], 3);
    assert_eq!(cpu.memory_byte(0x300), Some(1));
    assert_eq!(cpu.memory_byte(0x301), Some(5));
    assert_eq!(cpu.memory_byte(0x302), Some(7));
    assert_eq!(cpu.memory_byte(0x2FF), Some(0));
    assert_eq!(cpu.memory_byte(0x303), Some(0));
    assert_eq!(cpu.address_register(), 0x300);
    assert_eq!(cpu.register(4), Some(157));
}

#[test]
fn bcd_of_every_byte() {
    for value in 0..=255u8 {
        let cpu = run(&[0x64, value, 0xA3, 0x00, 0xF4, 0x33], 3);
        assert_eq!(cpu.memory_byte(0x300), Some(value / 100));
        assert_eq!(cpu.memory_byte(0x301), Some(value / 10 % 10));
        assert_eq!(cpu.memory_byte(0x302), Some(value % 10));
    }
}

#[test]
fn bcd_at_end_of_memory() {
    // I = 0xFFD: the digits take the last three bytes.
    let cpu = run(&[0x64, 209, 0xAF, 0xFD, 0xF4, 0x33], 3);
    assert_eq!(cpu.memory_byte(0xFFD), Some(2));
    assert_eq!(cpu.memory_byte(0xFFE), Some(0));
    assert_eq!(cpu.memory_byte(0xFFF), Some(9));
}

#[test]
fn bcd_beyond_memory_is_out_of_bounds() {
    let mut cpu = Cpu::with_rom(&[0x64, 209, 0xAF, 0xFE, 0xF4, 0x33]).unwrap();
    cpu.step().unwrap();
    cpu.step().unwrap();
    assert_eq!(cpu.step(), Err(CpuError::OutOfBounds));
    assert_eq!(cpu.memory_byte(0xFFE), Some(0));
    assert_eq!(cpu.memory_byte(0xFFF), Some(0));
    assert_eq!(cpu.program_counter(), 516);
}

#[test]
fn store_registers() {
    let rom = [0x60, 0x11, 0x61, 0x22, 0x62, 0x33, 0x63, 0x44, 0xA3, 0x00, 0xF2, 0x55];
    let cpu = run(&rom, 6);
    assert_eq!(cpu.memory_byte(0x2FF), Some(0));
    assert_eq!(cpu.memory_byte(0x300), Some(0x11));
    assert_eq!(cpu.memory_byte(0x301), Some(0x22));
    assert_eq!(cpu.memory_byte(0x302), Some(0x33));
    // V3 is not stored.
    assert_eq!(cpu.memory_byte(0x303), Some(0));
    assert_eq!(cpu.address_register(), 0x300);
}

#[test]
fn store_registers_advances_address_with_original_mem_acc() {
    let rom = [0x60, 0x11, 0x61, 0x22, 0x62, 0x33, 0x63, 0x44, 0xA3, 0x00, 0xF2, 0x55];
    let cpu = run_original_mem_acc(&rom, 6);
    assert_eq!(cpu.memory_byte(0x300), Some(0x11));
    assert_eq!(cpu.memory_byte(0x301), Some(0x22));
    assert_eq!(cpu.memory_byte(0x302), Some(0x33));
    assert_eq!(cpu.memory_byte(0x303), Some(0));
    assert_eq!(cpu.address_register(), 0x303);
}

#[test]
fn store_single_register() {
    let cpu = run(&[0x60, 0x5A, 0xA4, 0x00, 0xF0, 0x55], 3);
    assert_eq!(cpu.memory_byte(0x400), Some(0x5A));
    assert_eq!(cpu.memory_byte(0x401), Some(0));
}

#[test]
fn load_registers() {
    // I = 0x208, where the data 9, 8, 7, 6 lie.
    let rom = [0xA2, 0x08, 0xF2, 0x65, 0x00, 0x00, 0x00, 0x00, 9, 8, 7, 6];
    let cpu = run(&rom, 2);
    assert_eq!(cpu.register(0), Some(9));
    assert_eq!(cpu.register(1), Some(8));
    assert_eq!(cpu.register(2), Some(7));
    // V3 is not loaded.
    assert_eq!(cpu.register(3), Some(0));
    assert_eq!(cpu.address_register(), 0x208);
}

#[test]
fn load_registers_advances_address_with_original_mem_acc() {
    let rom = [0xA2, 0x08, 0xF2, 0x65, 0x00, 0x00, 0x00, 0x00, 9, 8, 7, 6];
    let cpu = run_original_mem_acc(&rom, 2);
    assert_eq!(cpu.register(0), Some(9));
    assert_eq!(cpu.register(1), Some(8));
    assert_eq!(cpu.register(2), Some(7));
    assert_eq!(cpu.register(3), Some(0));
    assert_eq!(cpu.address_register(), 0x20B);
}

#[test]
fn load_all_registers_from_font() {
    let cpu = run(&[0xA0, 0x00, 0xFF, 0x65], 2);
    let font = font_table();
    for index in 0..16 {
        assert_eq!(cpu.register(index), Some(font[index]));
    }
}

#[test]
fn store_then_load_round_trip() {
    // V0..V2 = 1, 2, 3; store at 0x300; clear them; load them back.
    let rom = [
        0x60, 0x01, 0x61, 0x02, 0x62, 0x03, 0xA3, 0x00, 0xF2, 0x55, 0x60, 0x00, 0x61, 0x00, 0x62,
        0x00, 0xF2, 0x65,
    ];
    let cpu = run(&rom, 9);
    assert_eq!(cpu.register(0), Some(1));
    assert_eq!(cpu.register(1), Some(2));
    assert_eq!(cpu.register(2), Some(3));
}

#[test]
fn bulk_transfer_up_to_last_byte() {
    // I = 0xFFD, V0..V2: the last byte touched is 0xFFF.
    let cpu = run(&[0x62, 0x77, 0xAF, 0xFD, 0xF2, 0x55], 3);
    assert_eq!(cpu.memory_byte(0xFFF), Some(0x77));
    assert_eq!(cpu.address_register(), 0xFFD);
    let cpu = run(&[0xAF, 0xFD, 0xF2, 0x65], 2);
    assert_eq!(cpu.address_register(), 0xFFD);
}

#[test]
fn bulk_transfer_beyond_memory_is_out_of_bounds() {
    let mut cpu = Cpu::with_rom(&[0x60, 0x77, 0xAF, 0xFE, 0xF2, 0x55]).unwrap();
    cpu.step().unwrap();
    cpu.step().unwrap();
    assert_eq!(cpu.step(), Err(CpuError::OutOfBounds));
    assert_eq!(cpu.memory_byte(0xFFE), Some(0));
    assert_eq!(cpu.program_counter(), 516);
    let mut cpu = Cpu::with_rom(&[0xAF, 0xFE, 0xF2, 0x65]).unwrap();
    cpu.step().unwrap();
    assert_eq!(cpu.step(), Err(CpuError::OutOfBounds));
}

#[test]
fn bulk_transfer_that_moves_address_out_of_memory_is_out_of_bounds() {
    // I = 0xFFD, V0..V2 with the address moving on: it would become 0x1000.
    let mut cpu =
        Cpu::with_rom_and_options(&[0x62, 0x77, 0xAF, 0xFD, 0xF2, 0x55], false, true).unwrap();
    cpu.step().unwrap();
    cpu.step().unwrap();
    assert_eq!(cpu.step(), Err(CpuError::OutOfBounds));
    assert_eq!(cpu.memory_byte(0xFFF), Some(0));
    assert_eq!(cpu.address_register(), 0xFFD);
    let mut cpu = Cpu::with_rom_and_options(&[0xAF, 0xFC, 0xF2, 0x65], false, true).unwrap();
    cpu.step().unwrap();
    cpu.step().unwrap();
    assert_eq!(cpu.address_register(), 0xFFF);
}
