use tilegame_hal::hal::{blink_error_code, delay_micros, delay_millis, disable_interrupts, enable_interrupts, Mcu};

#[test]
fn delays_add_up() {
    let mut mcu = Mcu::new();
    delay_millis(&mut mcu, 100);
    assert_eq!(mcu.busy_micros, 100_000);
    delay_millis(&mut mcu, 16);
    assert_eq!(mcu.busy_micros, 116_000);
    delay_millis(&mut mcu, 0);
    delay_micros(&mut mcu, 5);
    assert_eq!(mcu.busy_micros, 116_005);
    delay_millis(&mut mcu, 65_535);
    assert_eq!(mcu.busy_micros, 116_005 + 65_535_000);
}

#[test]
fn blink_timing_follows_code_bits() {
    for (code, ms) in [(5u8, 3_100u64), (0, 2_800), (63, 3_700), (0xC1, 2_950)] {
        let mut mcu = Mcu::new();
        mcu.io.store(0x25, 0xFF);
        blink_error_code(&mut mcu, code);
        assert_eq!(mcu.busy_micros, ms * 1000);
        assert_eq!(mcu.io.load(0x25), 0xFF & !(1 << 5));
        assert_eq!(mcu.io.load(0x24), 1 << 5);
    }
}

#[test]
fn interrupt_flag_toggles() {
    let mut mcu = Mcu::new();
    assert!(!mcu.interrupts_enabled);
    enable_interrupts(&mut mcu);
    assert!(mcu.interrupts_enabled);
    disable_interrupts(&mut mcu);
    assert!(!mcu.interrupts_enabled);
}
