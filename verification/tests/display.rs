use chip8::{Cpu, CpuError};

fn run(rom: &[u8], steps: usize) -> Cpu {
    let mut cpu = Cpu::with_rom(rom).unwrap();
    for _ in 0..steps {
        cpu.step().unwrap();
    }
    cpu
}

fn pixel(cpu: &Cpu, x: usize, y: usize) -> bool {
    cpu.get_screen_buffer()[y * 64 + x]
}

fn lit_pixels(cpu: &Cpu) -> usize {
    cpu.get_screen_buffer().iter().filter(|p| **p).count()
}

#[test]
fn screen_starts_dark_and_clean() {
    let mut cpu = Cpu::new();
    assert_eq!(cpu.get_screen_buffer().len(), 2048);
    assert_eq!(lit_pixels(&cpu), 0);
    assert!(!cpu.handle_screen_dirty_flag());
}

#[test]
fn draw_glyph_zero() {
    // I = 0 (glyph of 0), draw 5 rows at (V0, V1) = (0, 0)
    let mut cpu = run(&[0xA0, 0x00, 0xD0, 0x15], 2);
    let rows = ["####", "#..#", "#..#", "#..#", "####"];
    for (y, row) in rows.iter().enumerate() {
        for (x, c) in row.chars().enumerate() {
            assert_eq!(pixel(&cpu, x, y), c == '#');
        }
        for x in 4..64 {
            assert!(!pixel(&cpu, x, y));
        }
    }
    assert_eq!(lit_pixels(&cpu), 14);
    assert_eq!(cpu.register(0xF), Some(0));
    assert_eq!(cpu.program_counter(), 516);
    assert!(cpu.handle_screen_dirty_flag());
}

#[test]
fn draw_at_position() {
    // V0 = 10, V1 = 3, I = 5 (glyph of 1: 0x20 0x60 0x20 0x20 0x70)
    let cpu = run(&[0x60, 10, 0x61, 3, 0xA0, 0x05, 0xD0, 0x15], 4);
    assert!(pixel(&cpu, 12, 3));
    assert!(pixel(&cpu, 11, 4));
    assert!(pixel(&cpu, 12, 4));
    assert!(pixel(&cpu, 12, 5));
    assert!(pixel(&cpu, 12, 6));
    assert!(pixel(&cpu, 11, 7));
    assert!(pixel(&cpu, 12, 7));
    assert!(pixel(&cpu, 13, 7));
    assert_eq!(lit_pixels(&cpu), 8);
}

#[test]
fn drawing_twice_erases_and_collides() {
    let mut cpu = Cpu::with_rom(&[0xA0, 0x00, 0xD0, 0x15, 0xD0, 0x15]).unwrap();
    cpu.step().unwrap();
    cpu.step().unwrap();
    assert_eq!(cpu.register(0xF), Some(0));
    assert_eq!(lit_pixels(&cpu), 14);
    cpu.step().unwrap();
    assert_eq!(cpu.register(0xF), Some(1));
    assert_eq!(lit_pixels(&cpu), 0);
}

#[test]
fn draw_without_collision_clears_flag() {
    // VF = 1 first; the draw hits nothing and sets VF to 0.
    let cpu = run(&[0x6F, 0x01, 0xA0, 0x00, 0xD0, 0x15], 3);
    assert_eq!(cpu.register(0xF), Some(0));
}

#[test]
fn overlapping_sprites_xor() {
    // Glyph 0 at (0, 0), then glyph 1 (0x20 0x60 0x20 0x20 0x70) at (0, 0).
    let cpu = run(&[0xA0, 0x00, 0xD0, 0x15, 0xA0, 0x05, 0xD0, 0x15], 4);
    // Row 0: 0xF0 ^ 0x20 = 0xD0
    assert!(pixel(&cpu, 0, 0));
    assert!(pixel(&cpu, 1, 0));
    assert!(!pixel(&cpu, 2, 0));
    assert!(pixel(&cpu, 3, 0));
    // Row 1: 0x90 ^ 0x60 = 0xF0
    assert!(pixel(&cpu, 0, 1) && pixel(&cpu, 1, 1) && pixel(&cpu, 2, 1) && pixel(&cpu, 3, 1));
    assert_eq!(cpu.register(0xF), Some(1));
}

#[test]
fn sprite_position_wraps() {
    // V0 = 64 + 2, V1 = 32 + 1: drawn at (2, 1)
    let cpu = run(&[0x60, 66, 0x61, 33, 0xA0, 0x00, 0xD0, 0x11], 4);
    for x in 2..6 {
        assert!(pixel(&cpu, x, 1));
    }
    assert_eq!(lit_pixels(&cpu), 4);
}

#[test]
fn sprite_is_clipped_at_right_edge() {
    // V0 = 62, V1 = 0: of the row 0xF0 only two pixels fit.
    let cpu = run(&[0x60, 62, 0x61, 0, 0xA0, 0x00, 0xD0, 0x11], 4);
    assert!(pixel(&cpu, 62, 0));
    assert!(pixel(&cpu, 63, 0));
    // Nothing wraps to the left edge or into the next row.
    assert!(!pixel(&cpu, 0, 0));
    assert!(!pixel(&cpu, 1, 0));
    assert!(!pixel(&cpu, 0, 1));
    assert_eq!(lit_pixels(&cpu), 2);
}

#[test]
fn sprite_is_clipped_at_bottom_edge() {
    // V0 = 0, V1 = 30: of the five rows of glyph 0 only two fit.
    let cpu = run(&[0x60, 0, 0x61, 30, 0xA0, 0x00, 0xD0, 0x15], 4);
    // Row 30: 0xF0, row 31: 0x90
    assert!(pixel(&cpu, 0, 30) && pixel(&cpu, 3, 30));
    assert!(pixel(&cpu, 0, 31) && !pixel(&cpu, 1, 31) && pixel(&cpu, 3, 31));
    assert!(!pixel(&cpu, 0, 0));
    assert_eq!(lit_pixels(&cpu), 6);
}

#[test]
fn sprite_of_height_zero_draws_nothing() {
    let mut cpu = run(&[0x6F, 0x01, 0xA0, 0x00, 0xD0, 0x10], 3);
    assert_eq!(lit_pixels(&cpu), 0);
    assert_eq!(cpu.register(0xF), Some(0));
    assert!(cpu.handle_screen_dirty_flag());
}

#[test]
fn sprite_uses_all_eight_columns() {
    // The sprite row is the byte 0xFF behind the code.
    let cpu = run(&[0x60, 8, 0xA2, 0x06, 0xD0, 0x11, 0xFF], 3);
    for x in 8..16 {
        assert!(pixel(&cpu, x, 0));
    }
    assert_eq!(lit_pixels(&cpu), 8);
    // 0x81: the leftmost and the rightmost column only.
    let cpu = run(&[0x60, 8, 0xA2, 0x06, 0xD0, 0x11, 0x81], 3);
    assert!(pixel(&cpu, 8, 0));
    assert!(pixel(&cpu, 15, 0));
    assert_eq!(lit_pixels(&cpu), 2);
}

#[test]
fn sprite_at_end_of_memory() {
    // I = 0xFF1, 15 rows: the last row is the last byte of memory.
    let mut cpu = run(&[0xAF, 0xF1, 0xD0, 0x1F], 2);
    assert_eq!(lit_pixels(&cpu), 0);
    assert!(cpu.handle_screen_dirty_flag());
}

#[test]
fn sprite_beyond_memory_is_out_of_bounds() {
    // I = 0xFF2, 15 rows: the last row would lie at 0x1000.
    let mut cpu = Cpu::with_rom(&[0xAF, 0xF2, 0xD0, 0x1F]).unwrap();
    cpu.step().unwrap();
    assert_eq!(cpu.step(), Err(CpuError::OutOfBounds));
    assert_eq!(cpu.program_counter(), 514);
    assert!(!cpu.handle_screen_dirty_flag());
}

#[test]
fn clear_turns_every_pixel_off() {
    let mut cpu = Cpu::with_rom(&[0xA0, 0x00, 0xD0, 0x15, 0x00, 0xE0]).unwrap();
    cpu.step().unwrap();
    cpu.step().unwrap();
    assert_eq!(lit_pixels(&cpu), 14);
    assert!(cpu.handle_screen_dirty_flag());
    cpu.step().unwrap();
    assert_eq!(cpu.get_screen_buffer().len(), 2048);
    assert!(cpu.get_screen_buffer().iter().all(|p| !*p));
    assert!(cpu.handle_screen_dirty_flag());
    assert_eq!(cpu.program_counter(), 518);
}

#[test]
fn clear_of_dark_screen_marks_it_dirty() {
    let mut cpu = run(&[0x00, 0xE0], 1);
    assert_eq!(lit_pixels(&cpu), 0);
    assert!(cpu.handle_screen_dirty_flag());
}

#[test]
fn dirty_flag_is_consumed() {
    let mut cpu = run(&[0x00, 0xE0, 0x61, 0x01], 1);
    assert!(cpu.handle_screen_dirty_flag());
    assert!(!cpu.handle_screen_dirty_flag());
    // An instruction that does not draw leaves the flag down.
    cpu.step().unwrap();
    assert!(!cpu.handle_screen_dirty_flag());
}
