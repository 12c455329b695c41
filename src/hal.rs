//! The modelled microcontroller: its I/O space, the global interrupt flag,
//! and the state that the foreground shares with interrupt handlers.
use vstd::prelude::*;
use crate::ports::{PORTB, DDRB, PinMode, Port, PortB, PortBPins, configured, with_bit_cleared, with_bit_set};
use crate::register::{IoMemory, reg_value, reg_written};
use crate::twi::TwiShared;

verus! {

/// The whole machine state that this layer reads and writes.
pub struct Mcu {
    /// The memory-mapped registers.
    pub io: IoMemory,
    /// Whether interrupts are delivered.
    pub interrupts_enabled: bool,
    /// Milliseconds counted by the timer interrupt, modulo 65,536.
    pub ticks: u16,
    /// Whether a `Clock` is live.
    pub clock_live: bool,
    /// Whether a `TWI` is live.
    pub twi_live: bool,
    /// Whether a `USART` is live.
    pub usart_live: bool,
    /// The record shared by the bus driver and its interrupt handler.
    pub twi: TwiShared,
    /// Microseconds spent in busy-wait delays.
    pub busy_micros: u64,
    /// Bytes handed to the serial transmitter, oldest first.
    pub serial_out: Vec<u8>,
}

impl Mcu {
    pub open spec fn wf(&self) -> bool {
        self.io.wf() && self.twi.wf()
    }

    /// Whether `self` and `other` agree on everything but the I/O space and
    /// the bytes sent on the serial line.
    pub open spec fn agrees_apart_from_serial(&self, other: &Mcu) -> bool {
        &&& self.interrupts_enabled == other.interrupts_enabled
        &&& self.ticks == other.ticks
        &&& self.clock_live == other.clock_live
        &&& self.twi_live == other.twi_live
        &&& self.usart_live == other.usart_live
        &&& self.busy_micros == other.busy_micros
        &&& self.twi == other.twi
    }

    /// Whether `self` and `other` agree on everything but the I/O space and
    /// the bus driver's record.
    pub open spec fn agrees_apart_from_twi(&self, other: &Mcu) -> bool {
        &&& self.interrupts_enabled == other.interrupts_enabled
        &&& self.ticks == other.ticks
        &&& self.clock_live == other.clock_live
        &&& self.twi_live == other.twi_live
        &&& self.usart_live == other.usart_live
        &&& self.busy_micros == other.busy_micros
        &&& self.serial_out == other.serial_out
    }

    /// The machine after reset.
    pub fn new() -> (r: Mcu)
        ensures
            r.wf(),
            forall|i: int| 0 <= i < crate::register::IO_SIZE ==> #[trigger] r.io@[i] == 0,
            !r.interrupts_enabled,
            r.ticks == 0,
            !r.clock_live,
            !r.twi_live,
            !r.usart_live,
            r.twi.state == crate::twi::TwiState::Uninitialized,
            r.twi.buffer@.len() == 0,
            r.busy_micros == 0,
            r.serial_out@.len() == 0,
    {
        Mcu {
            io: IoMemory::new(),
            interrupts_enabled: false,
            ticks: 0,
            clock_live: false,
            twi_live: false,
            usart_live: false,
            twi: TwiShared::new(),
            busy_micros: 0,
            serial_out: Vec::new(),
        }
    }
}

/// Lets interrupts be delivered.
pub fn enable_interrupts(mcu: &mut Mcu)
    ensures
        *final(mcu) == (Mcu { interrupts_enabled: true, ..*old(mcu) }),
{
    mcu.interrupts_enabled = true;
}

/// Holds interrupts back.
pub fn disable_interrupts(mcu: &mut Mcu)
    ensures
        *final(mcu) == (Mcu { interrupts_enabled: false, ..*old(mcu) }),
{
    mcu.interrupts_enabled = false;
}

/// Longest delay, in milliseconds, that one busy-wait call is asked for.
pub const MAX_MS_PER_CALL: u16 = 16;

/// Microseconds per millisecond.
pub const US_PER_MS: u16 = 1000;

/// Busy-waits for `us` microseconds.
pub fn delay_micros(mcu: &mut Mcu, us: u16)
    requires
        old(mcu).busy_micros + us <= u64::MAX,
    ensures
        *final(mcu) == (Mcu { busy_micros: (old(mcu).busy_micros + us) as u64, ..*old(mcu) }),
{
    mcu.busy_micros = mcu.busy_micros + us as u64;
}

/// Busy-waits for `ms` milliseconds, in slices short enough for
/// `delay_micros`.
pub fn delay_millis(mcu: &mut Mcu, ms: u16)
    requires
        old(mcu).busy_micros + 1000 * ms <= u64::MAX,
    ensures
        *final(mcu) == (Mcu { busy_micros: (old(mcu).busy_micros + 1000 * ms) as u64, ..*old(mcu) }),
{
    let ghost total = ms;
    let mut ms = ms;
    while ms > MAX_MS_PER_CALL
        invariant
            mcu.busy_micros + 1000 * ms <= u64::MAX,
            mcu.busy_micros + 1000 * ms == old(mcu).busy_micros + 1000 * total,
            *mcu == (Mcu { busy_micros: mcu.busy_micros, ..*old(mcu) }),
        decreases ms,
    {
        delay_micros(mcu, MAX_MS_PER_CALL * US_PER_MS);
        ms = ms - MAX_MS_PER_CALL;
    }
    delay_micros(mcu, ms * US_PER_MS);
}

/// Milliseconds that one round of blinking `code` lasts: for each of its low
/// six bits, least significant first, a blink of 100 ms (a zero) or 250 ms
/// (a one) followed by 200 ms dark; then a one-second pause.
pub open spec fn blink_millis(code: u8) -> nat
    decreases 6nat,
{
    1000 + blink_bits_millis(code as nat, 6)
}

/// Milliseconds spent on the low `n` bits of `code`.
pub open spec fn blink_bits_millis(code: nat, n: nat) -> nat
    decreases n,
{
    if n == 0 {
        0
    } else {
        (if code % 2 == 0 {
            100nat
        } else {
            250nat
        }) + 200 + blink_bits_millis(code / 2, (n - 1) as nat)
    }
}

/// PB5 (the on-board LED) made an output, and then driven low.
pub open spec fn led_off(mem: Seq<u8>) -> Seq<u8> {
    with_bit_cleared::<PORTB>(configured::<DDRB, PORTB>(mem, 5, PinMode::Output), 5)
}

proof fn lemma_led_idempotent(mem: Seq<u8>)
    requires
        mem.len() == crate::register::IO_SIZE,
    ensures
        with_bit_cleared::<PORTB>(with_bit_set::<PORTB>(mem, 5), 5) == with_bit_cleared::<PORTB>(mem, 5),
        with_bit_cleared::<PORTB>(with_bit_cleared::<PORTB>(mem, 5), 5) == with_bit_cleared::<PORTB>(mem, 5),
{
    let v = mem[0x25];
    assert((((((v as u16 | 32u16) & 0xFF) as u8) as u16 & !32u16) & 0xFF) as u8 == ((v as u16 & !32u16) & 0xFF) as u8) by (bit_vector);
    assert((((((v as u16 & !32u16) & 0xFF) as u8) as u16 & !32u16) & 0xFF) as u8 == ((v as u16 & !32u16) & 0xFF) as u8) by (bit_vector);
    assert(with_bit_cleared::<PORTB>(with_bit_set::<PORTB>(mem, 5), 5) =~= with_bit_cleared::<PORTB>(mem, 5));
    assert(with_bit_cleared::<PORTB>(with_bit_cleared::<PORTB>(mem, 5), 5) =~= with_bit_cleared::<PORTB>(mem, 5));
}

/// Blinks `code` once on the LED at PB5 (see `blink_millis`), leaving the
/// LED off. Called over and over, it signals the code to a person.
pub fn blink_error_code(mcu: &mut Mcu, code: u8)
    requires
        old(mcu).wf(),
        old(mcu).busy_micros + 1000 * blink_millis(code) <= u64::MAX,
    ensures
        final(mcu).wf(),
        final(mcu).io@ == led_off(old(mcu).io@),
        final(mcu).busy_micros == old(mcu).busy_micros + 1000 * blink_millis(code),
        *final(mcu) == (Mcu { io: final(mcu).io, busy_micros: final(mcu).busy_micros, ..*old(mcu) }),
{
    PortB::set_pin_mode(&mut mcu.io, PortBPins::PB5, PinMode::Output);
    let ghost m0 = mcu.io@;
    let mut code_left = code;
    assert(crate::hal::pow2(0) == 1);
    assert(code as nat / 1 == code as nat);
    let mut i: u8 = 0;
    while i < 6
        invariant
            i <= 6,
            mcu.wf(),
            old(mcu).busy_micros + 1000 * blink_millis(code) <= u64::MAX,
            m0.len() == crate::register::IO_SIZE,
            m0 == configured::<DDRB, PORTB>(old(mcu).io@, 5, PinMode::Output),
            i == 0 ==> mcu.io@ == m0,
            i > 0 ==> mcu.io@ == with_bit_cleared::<PORTB>(m0, 5),
            code_left as nat == code as nat / crate::hal::pow2(i as nat),
            mcu.busy_micros + 1000 * blink_bits_millis(code_left as nat, (6 - i) as nat) + 1000000
                == old(mcu).busy_micros + 1000 * blink_millis(code),
            *mcu == (Mcu { io: mcu.io, busy_micros: mcu.busy_micros, ..*old(mcu) }),
        decreases 6 - i,
    {
        let bit = code_left & 0x1;
        assert(code_left & 1 == code_left % 2) by (bit_vector);
        let blink_len: u16 = if bit == 0 {
            100
        } else {
            250
        };
        let ghost before = mcu.io@;
        assert(blink_bits_millis(code_left as nat, (6 - i) as nat) == blink_len + 200
            + blink_bits_millis(code_left as nat / 2, (5 - i) as nat));
        PortB::set_port_high(&mut mcu.io, PortBPins::PB5);
        delay_millis(mcu, blink_len);
        PortB::set_port_low(&mut mcu.io, PortBPins::PB5);
        delay_millis(mcu, 200);
        proof {
            lemma_led_idempotent(before);
            lemma_led_idempotent(m0);
            crate::hal::lemma_pow2_step(code as nat, i as nat);
        }
        assert(code_left >> 1 == code_left / 2) by (bit_vector);
        code_left = code_left >> 1;
        i = i + 1;
    }
    delay_millis(mcu, 1000);
}

/// Two to the power `n`.
pub open spec fn pow2(n: nat) -> nat
    decreases n,
{
    if n == 0 {
        1
    } else {
        2 * pow2((n - 1) as nat)
    }
}

proof fn lemma_pow2_step(c: nat, i: nat)
    ensures
        pow2(i) > 0,
        c / pow2(i) / 2 == c / pow2(i + 1),
    decreases i,
{
    if i > 0 {
        lemma_pow2_step(c, (i - 1) as nat);
    }
    assert(pow2(i + 1) == 2 * pow2(i));
    vstd::arithmetic::div_mod::lemma_div_denominator(c as int, pow2(i) as int, 2);
}

} // verus!
