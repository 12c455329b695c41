use tilegame_hal::hal::Mcu;
use tilegame_hal::register::Register;
use tilegame_hal::usart::{USARTError, UBRR0, UCSR0A, UCSR0B, UCSR0C, UDR0, USART};

#[test]
fn init_configures_port_once() {
    let mut mcu = Mcu::new();
    let usart = USART::init(&mut mcu).ok().unwrap();
    assert_eq!(UBRR0::get_value(&mcu.io), 207);
    assert_eq!(UCSR0A::get_value(&mcu.io), 0b0000_0011);
    assert_eq!(UCSR0B::get_value(&mcu.io), 0b0001_1000);
    assert_eq!(UCSR0C::get_value(&mcu.io), 0b0000_0110);
    assert!(matches!(USART::init(&mut mcu), Err(USARTError::AlreadyInitialized)));
    usart.release(&mut mcu);
    assert_eq!(UCSR0B::get_value(&mcu.io), 0);
    assert!(USART::init(&mut mcu).is_ok());
}

#[test]
fn send_hands_over_bytes_in_order() {
    let mut mcu = Mcu::new();
    let mut usart = USART::init(&mut mcu).ok().unwrap();
    usart.send(&mut mcu, b"hi");
    usart.send_byte(&mut mcu, b'!');
    usart.send(&mut mcu, &[]);
    assert_eq!(mcu.serial_out, b"hi!".to_vec());
    assert_eq!(UDR0::get_value(&mcu.io), b'!');
}
