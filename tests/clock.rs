use tilegame_hal::clock::{timer_compare_interrupt, Clock, ClockError, OCR0A, TCCR0A, TCCR0B, TIMSK0};
use tilegame_hal::hal::{enable_interrupts, Mcu};
use tilegame_hal::register::Register;

#[test]
fn init_configures_timer_and_refuses_a_second_clock() {
    let mut mcu = Mcu::new();
    let clock = Clock::init(&mut mcu);
    assert!(clock.is_ok());
    assert!(mcu.clock_live);
    assert_eq!(TCCR0A::get_value(&mcu.io), 0b0000_0010);
    assert_eq!(TCCR0B::get_value(&mcu.io), 0b0000_0011);
    assert_eq!(TIMSK0::get_value(&mcu.io), 0b0000_0010);
    assert_eq!(OCR0A::get_value(&mcu.io), 249);
    assert!(matches!(Clock::init(&mut mcu), Err(ClockError::AlreadyInitialized)));
    clock.ok().unwrap().release(&mut mcu);
    assert!(!mcu.clock_live);
    assert_eq!(TCCR0B::get_value(&mcu.io), 0);
    assert_eq!(TIMSK0::get_value(&mcu.io), 0);
    assert!(Clock::init(&mut mcu).is_ok());
}

#[test]
fn now_reads_ticks_and_restores_interrupts() {
    let mut mcu = Mcu::new();
    enable_interrupts(&mut mcu);
    let clock = Clock::init(&mut mcu).ok().unwrap();
    let start = clock.now(&mut mcu);
    for _ in 0..7 {
        timer_compare_interrupt(&mut mcu);
    }
    let later = clock.now(&mut mcu);
    assert!(mcu.interrupts_enabled);
    assert_eq!(later.elapsed(start), 7);
    assert_eq!(mcu.ticks, 7);
}

#[test]
fn elapsed_is_correct_across_wraparound() {
    for offset in 0u16..=10 {
        for n in [0u32, 1, 5, 10, 11, 1000, 65_535] {
            let mut mcu = Mcu::new();
            let clock = Clock::init(&mut mcu).ok().unwrap();
            mcu.ticks = u16::MAX - offset;
            let start = clock.now(&mut mcu);
            for _ in 0..n {
                timer_compare_interrupt(&mut mcu);
            }
            let now = clock.now(&mut mcu);
            assert_eq!(now.elapsed(start) as u32, n);
        }
    }
}

#[test]
fn tick_counter_wraps_to_zero() {
    let mut mcu = Mcu::new();
    mcu.ticks = u16::MAX;
    timer_compare_interrupt(&mut mcu);
    assert_eq!(mcu.ticks, 0);
}
