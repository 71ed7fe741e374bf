use gb_emulator::timer::Timer;
use gb_emulator::utils::is_set;

const TIMER_BIT: u8 = 2;

#[test]
fn tima_overflow() {
    let mut interrupt_flag: u8 = 0;
    let mut timer = Timer::new();

    timer.write_byte(0xFF07, 0x05);

    timer.tick(4, &mut interrupt_flag);

    assert!(!is_set(interrupt_flag, TIMER_BIT));
    assert_eq!(timer.read_byte(0xFF05), 0);

    timer.tick(12, &mut interrupt_flag); // incremented in total 4 M cycles

    assert!(!is_set(interrupt_flag, TIMER_BIT));
    assert_eq!(timer.read_byte(0xFF05), 1);

    timer.tick(16 * 0xFE, &mut interrupt_flag);

    assert!(!is_set(interrupt_flag, TIMER_BIT));
    assert_eq!(timer.read_byte(0xFF05), 255);

    timer.tick(16, &mut interrupt_flag);

    assert!(is_set(interrupt_flag, TIMER_BIT));
    assert_eq!(timer.read_byte(0xFF05), 0);
}

#[test]
fn overflow_reloads_from_tma() {
    let mut interrupt_flag: u8 = 0;
    let mut timer = Timer::new();
    timer.write_byte(0xFF07, 0x05);
    timer.write_byte(0xFF06, 0xAB);
    timer.write_byte(0xFF05, 0xFF);
    timer.tick(16, &mut interrupt_flag);
    assert_eq!(timer.read_byte(0xFF05), 0xAB);
    assert_eq!(interrupt_flag, 0x04);
}

#[test]
fn div_is_high_byte_of_clock_and_resets_on_write() {
    let mut interrupt_flag: u8 = 0;
    let mut timer = Timer::new();
    timer.tick(0x1FF, &mut interrupt_flag);
    assert_eq!(timer.read_byte(0xFF04), 0x01);
    timer.write_byte(0xFF04, 0x77);
    assert_eq!(timer.read_byte(0xFF04), 0x00);
    timer.tick(0x100, &mut interrupt_flag);
    assert_eq!(timer.read_byte(0xFF04), 0x01);
}

#[test]
fn tac_reads_back_select_and_enable() {
    let mut timer = Timer::new();
    assert_eq!(timer.read_byte(0xFF07), 0x04);
    timer.write_byte(0xFF07, 0xFA);
    assert_eq!(timer.read_byte(0xFF07), 0x02);
    timer.write_byte(0xFF07, 0x07);
    assert_eq!(timer.read_byte(0xFF07), 0x07);
}

#[test]
fn disabled_timer_does_not_step() {
    let mut interrupt_flag: u8 = 0;
    let mut timer = Timer::new();
    timer.write_byte(0xFF07, 0x01);
    timer.tick(1000, &mut interrupt_flag);
    assert_eq!(timer.read_byte(0xFF05), 0);
}
