use tilegame_hal::clock::{TCCR0B, CS00, CS01};
use tilegame_hal::register::{
    clear_bits, get_bit, replace_bits, set_bits, set_value, BitBuilder, IoMemory, Readable,
    Register, Writable,
};
use tilegame_hal::twi::{TWCR, TWEA, TWEN, TWINT, TWSR, TWWC};
use tilegame_hal::usart::UBRR0;

#[test]
fn masked_write_then_read_gives_value_and_mask() {
    let mut io = IoMemory::new();
    for prior in [0x00u8, 0x0A, 0xFF] {
        for v in [0x00u8, 0x0B, 0x5A, 0xFF] {
            io.store(0xBC, prior);
            TWCR::set_raw_value(&mut io, v);
            assert_eq!(TWCR::get_value(&io), v & 0b1111_0101);
        }
    }
}

#[test]
fn masked_write_on_status_register_keeps_only_prescaler_bits() {
    let mut io = IoMemory::new();
    io.store(0xB9, 0xF8);
    TWSR::set_raw_value(&mut io, 0xFF);
    assert_eq!(TWSR::get_value(&io), 0x03);
}

#[test]
fn masked_write_on_wide_register() {
    let mut io = IoMemory::new();
    io.store(0xC4, 0x12);
    io.store(0xC5, 0xF3);
    UBRR0::set_raw_value(&mut io, 0xFFFF);
    assert_eq!(UBRR0::get_value(&io), 0x0FFF);
    assert_eq!(io.load(0xC4), 0xFF);
    assert_eq!(io.load(0xC5), 0x0F);
    UBRR0::set_raw_value(&mut io, 207);
    assert_eq!(UBRR0::get_value(&io), 207);
}

#[test]
fn bit_builder_combines_bits() {
    let b = BitBuilder::<TWCR, Readable, Writable>::new();
    assert_eq!(b.raw_value(), 0);
    let b = b.bitor(TWEN).bitor(TWEA).bitor(TWINT);
    assert_eq!(b.raw_value(), 0b1100_0100);
    let mut c = BitBuilder::<TCCR0B, Readable, Writable>::new().bitor(CS00);
    c.bitor_assign(CS01);
    assert_eq!(c.raw_value(), 0b11);
    let u = BitBuilder::<TWCR, Readable, Writable>::new()
        .bitor(TWEN)
        .union(BitBuilder::<TWCR, Readable, Writable>::new().bitor(TWINT));
    assert_eq!(u.raw_value(), 0b1000_0100);
}

#[test]
fn read_only_bit_is_readable() {
    let mut io = IoMemory::new();
    io.store(0xBC, 0b0000_1000);
    assert!(get_bit(&io, TWWC));
    io.store(0xBC, 0);
    assert!(!get_bit(&io, TWWC));
}

#[test]
fn set_and_clear_bits_keep_other_bits() {
    let mut io = IoMemory::new();
    io.store(0x45, 0b1000_0100);
    set_bits(&mut io, BitBuilder::<TCCR0B, Readable, Writable>::new().bitor(CS00).bitor(CS01));
    assert_eq!(TCCR0B::get_value(&io), 0b1000_0111);
    clear_bits(&mut io, BitBuilder::<TCCR0B, Readable, Writable>::new().bitor(CS00));
    assert_eq!(TCCR0B::get_value(&io), 0b1000_0110);
    set_value(&mut io, BitBuilder::<TCCR0B, Readable, Writable>::new().bitor(CS01));
    assert_eq!(TCCR0B::get_value(&io), 0b0000_0010);
}

#[test]
fn replace_bits_changes_only_masked_bits() {
    let mut io = IoMemory::new();
    io.store(0x45, 0b1000_0001);
    let mask = BitBuilder::<TCCR0B, Readable, Writable>::new().bitor(CS00).bitor(CS01);
    let new_val = BitBuilder::<TCCR0B, Readable, Writable>::new().bitor(CS01);
    replace_bits(&mut io, mask, new_val);
    assert_eq!(TCCR0B::get_value(&io), 0b1000_0010);
}
