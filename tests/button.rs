use tilegame_hal::button::Button;
use tilegame_hal::clock::{timer_compare_interrupt, Clock};
use tilegame_hal::hal::Mcu;
use tilegame_hal::ports::{PortD, PortDPins, DDRD, PORTD};
use tilegame_hal::register::Register;

const PIND: usize = 0x29;

fn set_level(mcu: &mut Mcu, bit: u8, high: bool) {
    let v = mcu.io.load(PIND);
    let v = if high { v | (1 << bit) } else { v & !(1 << bit) };
    mcu.io.store(PIND, v);
}

#[test]
fn new_enables_pull_up_on_input() {
    let mut mcu = Mcu::new();
    mcu.io.store(0x2A, 0xFF);
    let b: Button<PortD> = Button::new(&mut mcu.io, PortDPins::PD3);
    assert_eq!(DDRD::get_value(&mcu.io), 0xFF & !(1 << 3));
    assert_eq!(PORTD::get_value(&mcu.io), 1 << 3);
    assert!(!b.was_pressed());
}

/// The button was made at tick 0 and the samples start two ticks before the
/// counter wraps to 0, so the press meets a debounce window that has only
/// just opened.
#[test]
fn debounced_press_then_immediate_release() {
    let mut mcu = Mcu::new();
    let clock = Clock::init(&mut mcu).ok().unwrap();
    let mut b: Button<PortD> = Button::new(&mut mcu.io, PortDPins::PD3);
    mcu.ticks = u16::MAX - 1;
    let raw = [true, true, false, false, false, false];
    let mut pressed = Vec::new();
    let mut changed = Vec::new();
    for high in raw {
        set_level(&mut mcu, 3, high);
        let now = clock.now(&mut mcu);
        changed.push(b.update(&mcu.io, now));
        pressed.push(b.was_pressed());
        timer_compare_interrupt(&mut mcu);
    }
    assert_eq!(pressed, vec![false, false, false, false, true, false]);
    assert_eq!(changed, vec![false, false, false, false, true, false]);

    set_level(&mut mcu, 3, true);
    let now = clock.now(&mut mcu);
    assert!(b.update(&mcu.io, now));
    assert!(!b.was_pressed());
}

#[test]
fn press_after_quiet_period_is_accepted_at_once() {
    let mut mcu = Mcu::new();
    let clock = Clock::init(&mut mcu).ok().unwrap();
    let mut b: Button<PortD> = Button::new(&mut mcu.io, PortDPins::PD4);
    mcu.ticks = 100;
    set_level(&mut mcu, 4, false);
    let now = clock.now(&mut mcu);
    assert!(b.update(&mcu.io, now));
    assert!(b.was_pressed());
    timer_compare_interrupt(&mut mcu);
    let now = clock.now(&mut mcu);
    assert!(!b.update(&mcu.io, now));
    assert!(!b.was_pressed());
}

#[test]
fn bounce_within_debounce_time_is_ignored() {
    let mut mcu = Mcu::new();
    let clock = Clock::init(&mut mcu).ok().unwrap();
    let mut b: Button<PortD> = Button::new(&mut mcu.io, PortDPins::PD5);
    mcu.ticks = 50;
    set_level(&mut mcu, 5, false);
    let now = clock.now(&mut mcu);
    assert!(b.update(&mcu.io, now));
    timer_compare_interrupt(&mut mcu);
    set_level(&mut mcu, 5, true);
    let now = clock.now(&mut mcu);
    assert!(b.update(&mcu.io, now));
    assert!(!b.was_pressed());
    timer_compare_interrupt(&mut mcu);
    set_level(&mut mcu, 5, false);
    let now = clock.now(&mut mcu);
    assert!(!b.update(&mcu.io, now));
    timer_compare_interrupt(&mut mcu);
    let now = clock.now(&mut mcu);
    assert!(b.update(&mcu.io, now));
    assert!(b.was_pressed());
}
