use tilegame_hal::clock::{timer_compare_interrupt, Clock};
use tilegame_hal::hal::Mcu;
use tilegame_hal::input::Input;

#[test]
fn init_configures_four_pull_ups() {
    let mut mcu = Mcu::new();
    mcu.io.store(0x2A, 0xFF);
    let input = Input::init(&mut mcu.io);
    assert_eq!(mcu.io.load(0x2A), 0b1000_0111);
    assert_eq!(mcu.io.load(0x2B), 0b0111_1000);
    assert!(!input.left() && !input.right() && !input.up() && !input.down());
}

#[test]
fn update_reports_which_button_was_pressed() {
    let mut mcu = Mcu::new();
    let clock = Clock::init(&mut mcu).ok().unwrap();
    let mut input = Input::init(&mut mcu.io);
    mcu.io.store(0x29, 0xFF);
    mcu.ticks = 10;
    let now = clock.now(&mut mcu);
    assert!(!input.update(&mcu.io, now));
    mcu.io.store(0x29, 0xFF & !(1 << 6));
    timer_compare_interrupt(&mut mcu);
    let now = clock.now(&mut mcu);
    assert!(input.update(&mcu.io, now));
    assert!(input.up());
    assert!(!input.left() && !input.right() && !input.down());
    mcu.io.store(0x29, 0xFF & !(1 << 3) & !(1 << 6));
    timer_compare_interrupt(&mut mcu);
    let now = clock.now(&mut mcu);
    assert!(input.update(&mcu.io, now));
    assert!(input.left());
    assert!(!input.up());
}
