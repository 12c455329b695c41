use tilegame_hal::display::Display;
use tilegame_hal::hal::Mcu;
use tilegame_hal::progmem::PGMSlice;
use tilegame_hal::twi::{BusEvent, SimBus, TWIError, TWI};

fn setup(acks: bool, acked: usize) -> (Mcu, TWI, SimBus) {
    let mut mcu = Mcu::new();
    let mut twi = TWI::init(&mut mcu).ok().unwrap();
    twi.set_address(&mut mcu, 0x3C).unwrap();
    (mcu, twi, SimBus::new(acks, acked))
}

fn frame(payload: &[u8]) -> Vec<BusEvent> {
    let mut v = vec![BusEvent::Start, BusEvent::Byte(0x78)];
    v.extend(payload.iter().map(|b| BusEvent::Byte(*b)));
    v.push(BusEvent::Stop);
    v
}

const INIT: [u8; 14] = [0x00, 0xAE, 0x8D, 0x14, 0x20, 0x00, 0xA1, 0xC8, 0x00, 0xD9, 0xF1, 0xDB, 0x40, 0xAF];

#[test]
fn init_sends_power_up_sequence() {
    let (mut mcu, mut twi, mut bus) = setup(true, usize::MAX);
    assert!(Display::init(&mut twi, &mut mcu, &mut bus).is_ok());
    assert_eq!(bus.events, frame(&INIT));
}

#[test]
fn init_reports_refused_address() {
    let (mut mcu, mut twi, mut bus) = setup(false, usize::MAX);
    assert!(matches!(Display::init(&mut twi, &mut mcu, &mut bus), Err(TWIError::SendAddressNACK)));
}

#[test]
fn clear_display_blanks_screen() {
    let (mut mcu, mut twi, mut bus) = setup(true, 32);
    let mut d = Display::init(&mut twi, &mut mcu, &mut bus).ok().unwrap();
    bus.events.clear();
    assert_eq!(d.clear_display(&mut twi, &mut mcu, &mut bus), Ok(()));
    let mut blank = vec![0u8; 32];
    blank[0] = 0x40;
    let mut want = frame(&[0x00, 0x22, 0x00, 0x07, 0x21, 0x00, 0x7F]);
    for _ in 0..128 {
        want.extend(frame(&blank));
    }
    assert_eq!(bus.events, want);
}

#[test]
fn clear_display_stops_at_first_failure() {
    let (mut mcu, mut twi, mut bus) = setup(true, 14);
    let mut d = Display::init(&mut twi, &mut mcu, &mut bus).ok().unwrap();
    bus.events.clear();
    assert_eq!(d.clear_display(&mut twi, &mut mcu, &mut bus), Err(TWIError::SendDataNACK));
    let mut want = frame(&[0x00, 0x22, 0x00, 0x07, 0x21, 0x00, 0x7F]);
    let mut blank = vec![0u8; 15];
    blank[0] = 0x40;
    want.extend(frame(&blank));
    assert_eq!(bus.events, want);
}

static SPLASH: [u8; 70] = [0x40; 70];

#[test]
fn splash_goes_out_in_buffer_loads() {
    let (mut mcu, mut twi, mut bus) = setup(true, 32);
    let mut d = Display::init(&mut twi, &mut mcu, &mut bus).ok().unwrap();
    bus.events.clear();
    assert_eq!(d.display_splash(&mut twi, &mut mcu, &mut bus, PGMSlice::new(&SPLASH)), Ok(()));
    let mut want = frame(&[0x00, 0x22, 0, 7, 0x21, 0, 127]);
    want.extend(frame(&SPLASH[..32]));
    want.extend(frame(&SPLASH[32..64]));
    want.extend(frame(&SPLASH[64..]));
    assert_eq!(bus.events, want);
}

#[test]
fn splash_stops_at_short_acknowledge() {
    let (mut mcu, mut twi, mut bus) = setup(true, 20);
    let mut d = Display::init(&mut twi, &mut mcu, &mut bus).ok().unwrap();
    bus.events.clear();
    assert_eq!(
        d.display_splash(&mut twi, &mut mcu, &mut bus, PGMSlice::new(&SPLASH)),
        Err(TWIError::SendDataNACK)
    );
    let mut want = frame(&[0x00, 0x22, 0, 7, 0x21, 0, 127]);
    want.extend(frame(&SPLASH[..21]));
    assert_eq!(bus.events, want);
}

#[test]
fn draw_tile_selects_cell_then_sends_tile() {
    let (mut mcu, mut twi, mut bus) = setup(true, 32);
    let mut d = Display::init(&mut twi, &mut mcu, &mut bus).ok().unwrap();
    bus.events.clear();
    let tile: &[u8] = &[0x40, 1, 2, 3, 4, 5, 6, 7, 8];
    assert_eq!(d.draw_tile(&mut twi, &mut mcu, &mut bus, tile, 3, 2), Ok(()));
    let mut want = frame(&[0x00, 0x22, 2, 2, 0x21, 24, 31]);
    want.extend(frame(tile));
    assert_eq!(bus.events, want);
}
