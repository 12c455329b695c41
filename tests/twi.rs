use tilegame_hal::hal::Mcu;
use tilegame_hal::register::Register;
use tilegame_hal::twi::{
    twi_interrupt, BusEvent, BusFault, SimBus, TWIError, TWSRStatus, TwiAction, TwiShared, TwiState, TWBR,
    TWCR, TWI,
};

const ADDR: u8 = 0x3C;

fn ready() -> (Mcu, TWI) {
    let mut mcu = Mcu::new();
    let mut twi = TWI::init(&mut mcu).ok().unwrap();
    twi.set_address(&mut mcu, ADDR).unwrap();
    (mcu, twi)
}

fn expected(payload: &[u8]) -> Vec<BusEvent> {
    let mut v = vec![BusEvent::Start, BusEvent::Byte(ADDR << 1)];
    v.extend(payload.iter().map(|b| BusEvent::Byte(*b)));
    v.push(BusEvent::Stop);
    v
}

#[test]
fn write_of_up_to_32_bytes_to_acknowledging_slave_succeeds() {
    for len in [0usize, 1, 2, 7, 31, 32] {
        let (mut mcu, mut twi) = ready();
        let mut bus = SimBus::new(true, usize::MAX);
        let data: Vec<u8> = (0..len).map(|i| (i * 7 + 3) as u8).collect();
        assert_eq!(twi.write(&mut mcu, &mut bus, &data[..]), Ok(()));
        assert_eq!(bus.events, expected(&data[..]));
        assert_eq!(mcu.twi.state, TwiState::Ready);
    }
}

#[test]
fn consecutive_writes_append_to_the_bus() {
    let (mut mcu, mut twi) = ready();
    let mut bus = SimBus::new(true, 32);
    assert_eq!(twi.write(&mut mcu, &mut bus, &[1, 2][..]), Ok(()));
    assert_eq!(twi.write(&mut mcu, &mut bus, &[3][..]), Ok(()));
    let mut all = expected(&[1, 2]);
    all.extend(expected(&[3]));
    assert_eq!(bus.events, all);
}

#[test]
fn write_of_33_or_more_bytes_is_refused_without_bus_activity() {
    for len in [33usize, 34, 100] {
        let (mut mcu, mut twi) = ready();
        let mut bus = SimBus::new(true, usize::MAX);
        let data = vec![0xAAu8; len];
        assert_eq!(twi.write(&mut mcu, &mut bus, &data[..]), Err(TWIError::BufferLenError));
        assert!(bus.events.is_empty());
        assert_eq!(mcu.twi.state, TwiState::Ready);
    }
}

#[test]
fn address_not_acknowledged() {
    let (mut mcu, mut twi) = ready();
    let mut bus = SimBus::new(false, usize::MAX);
    assert_eq!(twi.write(&mut mcu, &mut bus, &[9, 8, 7][..]), Err(TWIError::SendAddressNACK));
    assert_eq!(bus.events, vec![BusEvent::Start, BusEvent::Byte(0x78), BusEvent::Stop]);
    assert_eq!(mcu.twi.state, TwiState::Ready);
}

#[test]
fn data_byte_not_acknowledged() {
    for k in 0usize..5 {
        let (mut mcu, mut twi) = ready();
        let mut bus = SimBus::new(true, k);
        let data = [10u8, 11, 12, 13, 14];
        assert_eq!(twi.write(&mut mcu, &mut bus, &data[..]), Err(TWIError::SendDataNACK));
        assert_eq!(bus.events, expected(&data[..k + 1]));
        let payload = bus.events.iter().filter(|e| matches!(e, BusEvent::Byte(_))).count() - 1;
        assert_eq!(payload, k + 1);
    }
}

#[test]
fn write_before_init_is_not_ready() {
    let mut mcu = Mcu::new();
    let mut bus = SimBus::new(true, usize::MAX);
    let mut twi = TWI::init(&mut mcu).ok().unwrap();
    mcu.twi.state = TwiState::Uninitialized;
    assert_eq!(twi.write(&mut mcu, &mut bus, &[1][..]), Err(TWIError::NotReady));
    assert!(bus.events.is_empty());
}

#[test]
fn init_twice_is_refused_and_release_allows_again() {
    let mut mcu = Mcu::new();
    let twi = TWI::init(&mut mcu).ok().unwrap();
    assert_eq!(TWBR::get_value(&mcu.io), 12);
    assert_eq!(TWCR::get_value(&mcu.io), 0b0100_0100);
    assert_eq!(mcu.io.load(0x28) & 0b0011_0000, 0b0011_0000);
    assert!(matches!(TWI::init(&mut mcu), Err(TWIError::AlreadyInitialized)));
    twi.release(&mut mcu);
    assert_eq!(TWCR::get_value(&mcu.io), 0);
    assert_eq!(mcu.io.load(0x28) & 0b0011_0000, 0);
    assert!(TWI::init(&mut mcu).is_ok());
}

#[test]
fn address_must_fit_in_seven_bits() {
    let mut mcu = Mcu::new();
    let mut twi = TWI::init(&mut mcu).ok().unwrap();
    assert_eq!(twi.set_address(&mut mcu, 128), Err(TWIError::InvalidAddress));
    assert_eq!(twi.set_address(&mut mcu, 255), Err(TWIError::InvalidAddress));
    assert_eq!(twi.set_address(&mut mcu, 127), Ok(()));
    assert_eq!(mcu.twi.address, 0xFE);
    assert_eq!(twi.set_address(&mut mcu, 0x3C), Ok(()));
    assert_eq!(mcu.twi.address, 0x78);
}

#[test]
fn handler_transition_table() {
    let mut s = TwiShared::new();
    s.address = 0x78;
    s.state = TwiState::Transmitting;
    s.buffer.set(&[5u8, 6][..]).unwrap();
    assert_eq!(s.on_status(TWSRStatus::Start), TwiAction::Transmit(0x78));
    assert_eq!(s.on_status(TWSRStatus::RepStart), TwiAction::Transmit(0x78));
    assert_eq!(s.on_status(TWSRStatus::MtSlaAck), TwiAction::Transmit(5));
    assert_eq!(s.on_status(TWSRStatus::MtDataAck), TwiAction::Transmit(6));
    assert_eq!(s.state, TwiState::Transmitting);
    assert_eq!(s.on_status(TWSRStatus::NoInfo), TwiAction::Idle);
    assert_eq!(s.on_status(TWSRStatus::SrSlaAck), TwiAction::Nack);
    assert_eq!(s.on_status(TWSRStatus::Reserved(0xD0)), TwiAction::Nack);
    assert_eq!(s.on_status(TWSRStatus::MtDataAck), TwiAction::Stop);
    assert_eq!(s.state, TwiState::Ready);
    assert_eq!(s.error, TWSRStatus::NoInfo);

    for (status, action) in [
        (TWSRStatus::MtSlaNack, TwiAction::Stop),
        (TWSRStatus::MtDataNack, TwiAction::Stop),
        (TWSRStatus::MtArbLost, TwiAction::ReleaseBus),
        (TWSRStatus::BusError, TwiAction::Stop),
    ] {
        let mut s = TwiShared::new();
        s.state = TwiState::Transmitting;
        assert_eq!(s.on_status(status), action);
        assert_eq!(s.error, status);
        assert_eq!(s.state, TwiState::Ready);
    }
}

#[test]
fn status_codes_round_trip() {
    for code in 0u16..=255 {
        let code = code as u8;
        let s = TWSRStatus::from_code(code);
        if code % 8 != 0 || matches!(code, 0xD0 | 0xD8 | 0xE0 | 0xE8 | 0xF0) {
            assert_eq!(s, TWSRStatus::Reserved(code));
        } else {
            assert!(!matches!(s, TWSRStatus::Reserved(_)));
        }
    }
    assert_eq!(TWSRStatus::from_code(0x38), TWSRStatus::MtArbLost);
    assert_eq!(TWSRStatus::from_code(0x00), TWSRStatus::BusError);
    assert_eq!(TWSRStatus::from_code(0xF8), TWSRStatus::NoInfo);
}

#[test]
fn interrupt_on_arbitration_loss_releases_the_bus() {
    let (mut mcu, _twi) = ready();
    mcu.twi.state = TwiState::Transmitting;
    mcu.io.store(0xB9, 0x38);
    let mut bus = SimBus::new(true, usize::MAX);
    twi_interrupt(&mut mcu, &mut bus);
    assert_eq!(mcu.twi.state, TwiState::Ready);
    assert_eq!(mcu.twi.error, TWSRStatus::MtArbLost);
    assert_eq!(TWCR::get_value(&mcu.io), 0b1100_0100);
    assert!(bus.events.is_empty());
}

#[test]
fn interrupt_on_bus_error_stops() {
    let (mut mcu, _twi) = ready();
    mcu.twi.state = TwiState::Transmitting;
    mcu.io.store(0xB9, 0x00);
    let mut bus = SimBus::new(true, usize::MAX);
    twi_interrupt(&mut mcu, &mut bus);
    assert_eq!(mcu.twi.state, TwiState::Ready);
    assert_eq!(mcu.twi.error, TWSRStatus::BusError);
    // The STOP has gone out: TWSTO and TWINT read 0 again.
    assert_eq!(TWCR::get_value(&mcu.io), 0b0100_0100);
    assert_eq!(bus.events, vec![BusEvent::Stop]);
}

#[test]
fn interrupt_on_start_sends_address() {
    let (mut mcu, _twi) = ready();
    mcu.twi.state = TwiState::Transmitting;
    mcu.io.store(0xB9, 0x08 | 0x01);
    let mut bus = SimBus::new(true, usize::MAX);
    twi_interrupt(&mut mcu, &mut bus);
    assert!(bus.events.is_empty());
    assert_eq!(mcu.io.load(0xBB), 0x78);
    assert_eq!(TWCR::get_value(&mcu.io), 0b1100_0101);
    assert_eq!(mcu.twi.state, TwiState::Transmitting);
}

#[test]
fn last_byte_acknowledged_stops_before_handing_back() {
    let (mut mcu, _twi) = ready();
    mcu.twi.state = TwiState::Transmitting;
    mcu.io.store(0xB9, 0x28);
    let mut bus = SimBus::new(true, usize::MAX);
    twi_interrupt(&mut mcu, &mut bus);
    assert_eq!(mcu.twi.state, TwiState::Ready);
    assert_eq!(mcu.twi.error, TWSRStatus::NoInfo);
    assert_eq!(TWCR::get_value(&mcu.io) & 0b0001_0000, 0);
    assert_eq!(bus.events, vec![BusEvent::Stop]);
}

#[test]
fn arbitration_lost_during_write() {
    for at in 0usize..4 {
        let (mut mcu, mut twi) = ready();
        let mut bus = SimBus::with_fault(true, usize::MAX, BusFault::ArbitrationLost, at);
        let data = [1u8, 2, 3];
        assert_eq!(twi.write(&mut mcu, &mut bus, &data[..]), Err(TWIError::ArbitrationLost));
        let mut want = vec![BusEvent::Start, BusEvent::Byte(0x78)];
        want.extend(data[..at].iter().map(|b| BusEvent::Byte(*b)));
        assert_eq!(bus.events, want);
        assert_eq!(mcu.twi.state, TwiState::Ready);
        assert_eq!(twi.write(&mut mcu, &mut SimBus::new(true, 3), &data[..]), Ok(()));
    }
}

#[test]
fn bus_error_during_write() {
    let (mut mcu, mut twi) = ready();
    let mut bus = SimBus::with_fault(true, usize::MAX, BusFault::BusError, 2);
    let data = [1u8, 2, 3];
    assert_eq!(twi.write(&mut mcu, &mut bus, &data[..]), Err(TWIError::BusError));
    assert_eq!(
        bus.events,
        vec![BusEvent::Start, BusEvent::Byte(0x78), BusEvent::Byte(1), BusEvent::Byte(2), BusEvent::Stop]
    );
    assert_eq!(mcu.twi.state, TwiState::Ready);
}

#[test]
fn fault_after_the_end_of_a_write_has_no_effect() {
    let (mut mcu, mut twi) = ready();
    let mut bus = SimBus::with_fault(true, usize::MAX, BusFault::BusError, 4);
    assert_eq!(twi.write(&mut mcu, &mut bus, &[1u8, 2, 3][..]), Ok(()));
    let mut bus = SimBus::with_fault(false, usize::MAX, BusFault::ArbitrationLost, 1);
    assert_eq!(twi.write(&mut mcu, &mut bus, &[1u8, 2, 3][..]), Err(TWIError::SendAddressNACK));
}

#[test]
fn buffer_len_error_leaves_driver_record_alone() {
    let (mut mcu, mut twi) = ready();
    let mut bus = SimBus::new(true, usize::MAX);
    assert_eq!(twi.write(&mut mcu, &mut bus, &[7u8, 8][..]), Ok(()));
    mcu.twi.error = TWSRStatus::MtDataNack;
    assert_eq!(twi.write(&mut mcu, &mut bus, &[0u8; 40][..]), Err(TWIError::BufferLenError));
    assert_eq!(mcu.twi.error, TWSRStatus::MtDataNack);
    assert_eq!(mcu.twi.state, TwiState::Ready);
}
