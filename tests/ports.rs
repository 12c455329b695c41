use tilegame_hal::hal::Mcu;
use tilegame_hal::ports::{PinMode, Port, PortB, PortBPins, PortC, PortCPins, PortD, PortDPins, PortBit};

#[test]
fn pin_modes_set_direction_and_pull_up() {
    let mut mcu = Mcu::new();
    mcu.io.store(0x24, 0b0000_0001);
    mcu.io.store(0x25, 0b1000_0000);
    PortB::set_pin_mode(&mut mcu.io, PortBPins::PB5, PinMode::Output);
    assert_eq!(mcu.io.load(0x24), 0b0010_0001);
    assert_eq!(mcu.io.load(0x25), 0b1000_0000);
    PortB::set_pin_mode(&mut mcu.io, PortBPins::PB0, PinMode::InputPullup);
    assert_eq!(mcu.io.load(0x24), 0b0010_0000);
    assert_eq!(mcu.io.load(0x25), 0b1000_0001);
    PortB::set_pin_mode(&mut mcu.io, PortBPins::PB7, PinMode::Input);
    assert_eq!(mcu.io.load(0x24), 0b0010_0000);
    assert_eq!(mcu.io.load(0x25), 0b0000_0001);
}

#[test]
fn drive_toggle_and_read() {
    let mut mcu = Mcu::new();
    PortD::set_port_high(&mut mcu.io, PortDPins::PD2);
    assert_eq!(mcu.io.load(0x2B), 0b0000_0100);
    PortD::set_port_low(&mut mcu.io, PortDPins::PD2);
    assert_eq!(mcu.io.load(0x2B), 0);
    PortD::set_pin_toggle(&mut mcu.io, PortDPins::PD7);
    assert_eq!(mcu.io.load(0x29), 0b1000_0000);
    assert!(PortD::get_pin_state(&mcu.io, PortDPins::PD7));
    assert!(!PortD::get_pin_state(&mcu.io, PortDPins::PD6));
}

#[test]
fn port_c_has_seven_pins_under_its_mask() {
    let mut mcu = Mcu::new();
    mcu.io.store(0x28, 0xFF);
    PortC::set_port_low(&mut mcu.io, PortCPins::PC6);
    assert_eq!(mcu.io.load(0x28), 0b0011_1111);
    assert_eq!(PortCPins::PC6.bit(), 6);
    assert_eq!(PortBPins::PB3.bit(), 3);
}
