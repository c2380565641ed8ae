use chip8::timers::tick;
use chip8::Cpu;

fn run(rom: &[u8], steps: usize) -> Cpu {
    let mut cpu = Cpu::with_rom(rom).unwrap();
    for _ in 0..steps {
        cpu.step().unwrap();
    }
    cpu
}

#[test]
fn tick_counts_down_and_stops_at_zero() {
    assert_eq!(tick(0), 0);
    assert_eq!(tick(1), 0);
    assert_eq!(tick(2), 1);
    assert_eq!(tick(255), 254);
}

#[test]
fn timers_at_zero_stay_at_zero() {
    let mut cpu = Cpu::new();
    assert_eq!(cpu.delay_timer(), 0);
    assert_eq!(cpu.sound_timer(), 0);
    cpu.tick_clock();
    cpu.tick_clock();
    assert_eq!(cpu.delay_timer(), 0);
    assert_eq!(cpu.sound_timer(), 0);
}

#[test]
fn timers_count_down_independently() {
    // V1 = 3, DT = V1, V2 = 1, ST = V2
    let mut cpu = run(&[0x61, 0x03, 0xF1, 0x15, 0x62, 0x01, 0xF2, 0x18], 4);
    assert_eq!(cpu.delay_timer(), 3);
    assert_eq!(cpu.sound_timer(), 1);
    cpu.tick_clock();
    assert_eq!(cpu.delay_timer(), 2);
    assert_eq!(cpu.sound_timer(), 0);
    cpu.tick_clock();
    assert_eq!(cpu.delay_timer(), 1);
    assert_eq!(cpu.sound_timer(), 0);
    cpu.tick_clock();
    cpu.tick_clock();
    assert_eq!(cpu.delay_timer(), 0);
    assert_eq!(cpu.sound_timer(), 0);
}

#[test]
fn steps_do_not_tick() {
    let cpu = run(&[0x61, 0x03, 0xF1, 0x15, 0x62, 0x01, 0x63, 0x01], 4);
    assert_eq!(cpu.delay_timer(), 3);
}

#[test]
fn tick_changes_nothing_but_the_timers() {
    let mut cpu = run(&[0x61, 0x03, 0xF1, 0x15, 0xA1, 0x23], 3);
    cpu.tick_clock();
    assert_eq!(cpu.register(1), Some(3));
    assert_eq!(cpu.address_register(), 0x123);
    assert_eq!(cpu.program_counter(), 518);
}

#[test]
fn read_delay_timer() {
    // V1 = 9, DT = V1, V2 = DT
    let mut cpu = Cpu::with_rom(&[0x61, 0x09, 0xF1, 0x15, 0xF2, 0x07, 0xF3, 0x07]).unwrap();
    cpu.step().unwrap();
    cpu.step().unwrap();
    cpu.step().unwrap();
    assert_eq!(cpu.register(2), Some(9));
    cpu.tick_clock();
    cpu.step().unwrap();
    assert_eq!(cpu.register(3), Some(8));
}

#[test]
fn tone_plays_while_sound_timer_runs() {
    let mut cpu = run(&[0x61, 0x02, 0xF1, 0x18], 2);
    assert_eq!(cpu.sound_timer(), 2);
    assert!(cpu.should_play_tone());
    cpu.tick_clock();
    assert!(cpu.should_play_tone());
    cpu.tick_clock();
    assert!(!cpu.should_play_tone());
    cpu.tick_clock();
    assert!(!cpu.should_play_tone());
}

#[test]
fn delay_timer_plays_no_tone() {
    let cpu = run(&[0x61, 0x02, 0xF1, 0x15], 2);
    assert!(!cpu.should_play_tone());
}
