//! A monotonic millisecond clock.
//!
//! Timer/counter 0 runs in clear-on-compare mode with a prescaler of 64 and a
//! compare value of 249; the counter runs from 0 to 249 and then clears, a
//! period of 250 timer ticks, so its compare-match interrupt fires once per
//! millisecond; each interrupt adds one to a 16-bit tick counter. Readings are
//! `Instant`s, meaningful only as the operands of a subtraction.
use vstd::prelude::*;
use crate::hal::Mcu;
use crate::register::{
    Bit, BitBuilder, IoMemory, NotWritable, Readable, Register, RegisterType, SetValueType,
    Writable, bit_mask, bit_value, clear_bits, reg_value, reg_written, set_bits, set_value,
};

verus! {

/// Timer/Counter 0 Control Register A.
pub struct TCCR0A;

impl Register for TCCR0A {
    type DataType = u8;

    open spec fn spec_addr() -> nat {
        0x44
    }

    open spec fn spec_write_mask() -> u16 {
        0b1111_0011
    }

    fn addr() -> (r: usize) {
        proof {
            assert(<u8 as RegisterType>::spec_width() == 1);
        }
        0x44
    }

    fn write_mask() -> (r: u16) {
        0b1111_0011
    }

    proof fn lemma_layout() {
        assert(<u8 as RegisterType>::spec_width() == 1);
    }
}

/// Timer/Counter 0 Waveform Generation Mode, bit 1.
#[derive(Clone, Copy)]
pub struct WGM01;

impl Bit for WGM01 {
    type ReadAccess = Readable;
    type WriteAccess = Writable;
    type Register = TCCR0A;

    open spec fn spec_bit_id() -> nat {
        1
    }

    fn bit_id(&self) -> (r: u8) {
        proof {
            assert(<u8 as RegisterType>::spec_width() == 1);
        }
        1
    }
}

impl SetValueType for WGM01 {
    type Register = TCCR0A;
    type WriteAccess = Writable;

    open spec fn spec_value(&self) -> u16 {
        bit_mask(1)
    }

    fn value(&self) -> (r: u16) {
        proof {
            assert(<u8 as RegisterType>::spec_width() == 1);
        }
        bit_value(1)
    }
}

/// Timer/Counter 0 Control Register B.
pub struct TCCR0B;

impl Register for TCCR0B {
    type DataType = u8;

    open spec fn spec_addr() -> nat {
        0x45
    }

    open spec fn spec_write_mask() -> u16 {
        0b1100_1111
    }

    fn addr() -> (r: usize) {
        proof {
            assert(<u8 as RegisterType>::spec_width() == 1);
        }
        0x45
    }

    fn write_mask() -> (r: u16) {
        0b1100_1111
    }

    proof fn lemma_layout() {
        assert(<u8 as RegisterType>::spec_width() == 1);
    }
}

/// Timer/Counter 0 Clock Select, bit 0.
#[derive(Clone, Copy)]
pub struct CS00;

impl Bit for CS00 {
    type ReadAccess = Readable;
    type WriteAccess = Writable;
    type Register = TCCR0B;

    open spec fn spec_bit_id() -> nat {
        0
    }

    fn bit_id(&self) -> (r: u8) {
        proof {
            assert(<u8 as RegisterType>::spec_width() == 1);
        }
        0
    }
}

impl SetValueType for CS00 {
    type Register = TCCR0B;
    type WriteAccess = Writable;

    open spec fn spec_value(&self) -> u16 {
        bit_mask(0)
    }

    fn value(&self) -> (r: u16) {
        proof {
            assert(<u8 as RegisterType>::spec_width() == 1);
        }
        bit_value(0)
    }
}

/// Timer/Counter 0 Clock Select, bit 1.
#[derive(Clone, Copy)]
pub struct CS01;

impl Bit for CS01 {
    type ReadAccess = Readable;
    type WriteAccess = Writable;
    type Register = TCCR0B;

    open spec fn spec_bit_id() -> nat {
        1
    }

    fn bit_id(&self) -> (r: u8) {
        proof {
            assert(<u8 as RegisterType>::spec_width() == 1);
        }
        1
    }
}

impl SetValueType for CS01 {
    type Register = TCCR0B;
    type WriteAccess = Writable;

    open spec fn spec_value(&self) -> u16 {
        bit_mask(1)
    }

    fn value(&self) -> (r: u16) {
        proof {
            assert(<u8 as RegisterType>::spec_width() == 1);
        }
        bit_value(1)
    }
}

/// Timer/Counter 0 Interrupt Mask Register.
pub struct TIMSK0;

impl Register for TIMSK0 {
    type DataType = u8;

    open spec fn spec_addr() -> nat {
        0x6E
    }

    open spec fn spec_write_mask() -> u16 {
        0b0000_0111
    }

    fn addr() -> (r: usize) {
        proof {
            assert(<u8 as RegisterType>::spec_width() == 1);
        }
        0x6E
    }

    fn write_mask() -> (r: u16) {
        0b0000_0111
    }

    proof fn lemma_layout() {
        assert(<u8 as RegisterType>::spec_width() == 1);
    }
}

/// Timer/Counter 0 Output Compare A Match Interrupt Enable.
#[derive(Clone, Copy)]
pub struct OCIEA;

impl Bit for OCIEA {
    type ReadAccess = Readable;
    type WriteAccess = Writable;
    type Register = TIMSK0;

    open spec fn spec_bit_id() -> nat {
        1
    }

    fn bit_id(&self) -> (r: u8) {
        proof {
            assert(<u8 as RegisterType>::spec_width() == 1);
        }
        1
    }
}

impl SetValueType for OCIEA {
    type Register = TIMSK0;
    type WriteAccess = Writable;

    open spec fn spec_value(&self) -> u16 {
        bit_mask(1)
    }

    fn value(&self) -> (r: u16) {
        proof {
            assert(<u8 as RegisterType>::spec_width() == 1);
        }
        bit_value(1)
    }
}

/// Timer/Counter 0 Counter Value Register.
pub struct TCNT0;

impl Register for TCNT0 {
    type DataType = u8;

    open spec fn spec_addr() -> nat {
        0x46
    }

    open spec fn spec_write_mask() -> u16 {
        0xFF
    }

    fn addr() -> (r: usize) {
        proof {
            assert(<u8 as RegisterType>::spec_width() == 1);
        }
        0x46
    }

    fn write_mask() -> (r: u16) {
        0xFF
    }

    proof fn lemma_layout() {
        assert(<u8 as RegisterType>::spec_width() == 1);
    }
}

/// Timer/Counter 0 Output Compare Register A.
pub struct OCR0A;

impl Register for OCR0A {
    type DataType = u8;

    open spec fn spec_addr() -> nat {
        0x47
    }

    open spec fn spec_write_mask() -> u16 {
        0xFF
    }

    fn addr() -> (r: usize) {
        proof {
            assert(<u8 as RegisterType>::spec_width() == 1);
        }
        0x47
    }

    fn write_mask() -> (r: u16) {
        0xFF
    }

    proof fn lemma_layout() {
        assert(<u8 as RegisterType>::spec_width() == 1);
    }
}

/// Compare value giving one interrupt per millisecond. In clear-on-compare
/// mode the period is the compare value plus one timer tick, so this is
/// 16 MHz / 64 / 1000 - 1.
pub const OCR0A_VALUE: u8 = 249;

#[derive(Clone, Copy, PartialEq, Eq, Structural, Debug)]
pub enum ClockError {
    AlreadyInitialized,
}

/// The I/O space once the timer is configured by `Clock::init`.
pub open spec fn timer_started(mem: Seq<u8>) -> Seq<u8> {
    let m1 = reg_written::<TCCR0A>(mem, 0u16 | bit_mask(1));
    let m2 = reg_written::<TIMSK0>(m1, reg_value::<TIMSK0>(m1) | (0u16 | bit_mask(1)));
    let m3 = reg_written::<TCNT0>(m2, 0);
    let m4 = reg_written::<OCR0A>(m3, OCR0A_VALUE as u16);
    reg_written::<TCCR0B>(m4, (0u16 | bit_mask(0)) | bit_mask(1))
}

/// The I/O space once the timer is stopped by `Clock::release`.
pub open spec fn timer_stopped(mem: Seq<u8>) -> Seq<u8> {
    let m1 = reg_written::<TCCR0B>(mem, reg_value::<TCCR0B>(mem) & !((0u16 | bit_mask(0)) | bit_mask(1)));
    reg_written::<TIMSK0>(m1, reg_value::<TIMSK0>(m1) & !(0u16 | bit_mask(1)))
}

/// The monotonic clock; at most one is live at a time.
pub struct Clock {
    _token: (),
}

impl Clock {
    /// Configures the timer and its compare interrupt, or fails if a clock is
    /// already live.
    pub fn init(mcu: &mut Mcu) -> (r: Result<Clock, ClockError>)
        requires
            old(mcu).wf(),
        ensures
            final(mcu).wf(),
            old(mcu).clock_live ==> r == Err::<Clock, ClockError>(ClockError::AlreadyInitialized)
                && *final(mcu) == *old(mcu),
            !old(mcu).clock_live ==> r is Ok && final(mcu).clock_live
                && final(mcu).io@ == timer_started(old(mcu).io@)
                && final(mcu).ticks == old(mcu).ticks
                && final(mcu).interrupts_enabled == old(mcu).interrupts_enabled
                && final(mcu).twi_live == old(mcu).twi_live
                && final(mcu).usart_live == old(mcu).usart_live
                && final(mcu).twi == old(mcu).twi
                && final(mcu).busy_micros == old(mcu).busy_micros
                && final(mcu).serial_out == old(mcu).serial_out,
    {
        if mcu.clock_live {
            Err(ClockError::AlreadyInitialized)
        } else {
            let io = &mut mcu.io;
            set_value(io, BitBuilder::<TCCR0A, Readable, Writable>::new().bitor(WGM01));
            set_bits(io, BitBuilder::<TIMSK0, Readable, Writable>::new().bitor(OCIEA));
            TCNT0::set_raw_value(io, 0);
            OCR0A::set_raw_value(io, OCR0A_VALUE);
            set_value(io, BitBuilder::<TCCR0B, Readable, Writable>::new().bitor(CS00).bitor(CS01));
            mcu.clock_live = true;
            Ok(Clock { _token: () })
        }
    }

    /// Reads the tick counter inside a critical section: interrupts are held
    /// back for the read and then put back as they were.
    pub fn now(&self, mcu: &mut Mcu) -> (r: Instant)
        ensures
            r@ == old(mcu).ticks,
            *final(mcu) == *old(mcu),
    {
        let was_enabled = mcu.interrupts_enabled;
        crate::hal::disable_interrupts(mcu);
        let value = mcu.ticks;
        if was_enabled {
            crate::hal::enable_interrupts(mcu);
        }
        Instant(value)
    }

    /// Stops the timer and its interrupt, and lets a new clock be made.
    pub fn release(self, mcu: &mut Mcu)
        requires
            old(mcu).wf(),
        ensures
            final(mcu).wf(),
            !final(mcu).clock_live,
            final(mcu).io@ == timer_stopped(old(mcu).io@),
            final(mcu).ticks == old(mcu).ticks,
            final(mcu).interrupts_enabled == old(mcu).interrupts_enabled,
            final(mcu).twi_live == old(mcu).twi_live,
            final(mcu).usart_live == old(mcu).usart_live,
            final(mcu).twi == old(mcu).twi,
            final(mcu).busy_micros == old(mcu).busy_micros,
            final(mcu).serial_out == old(mcu).serial_out,
    {
        let io = &mut mcu.io;
        clear_bits(io, BitBuilder::<TCCR0B, Readable, Writable>::new().bitor(CS00).bitor(CS01));
        clear_bits(io, BitBuilder::<TIMSK0, Readable, Writable>::new().bitor(OCIEA));
        mcu.clock_live = false;
    }
}

/// Timer/counter 0 compare-match A interrupt: one more millisecond.
pub fn timer_compare_interrupt(mcu: &mut Mcu)
    ensures
        *final(mcu) == (Mcu { ticks: next_tick(old(mcu).ticks), ..*old(mcu) }),
{
    mcu.ticks = mcu.ticks.wrapping_add(1);
}

/// The counter after one more tick, wrapping to zero after 65,535.
pub open spec fn next_tick(t: u16) -> u16 {
    ((t + 1) % 65536) as u16
}

/// `a - b` modulo 65,536.
pub open spec fn wrapping_diff(a: u16, b: u16) -> u16 {
    ((a - b) % 65536) as u16
}

/// A reading of the clock.
#[derive(Clone, Copy)]
pub struct Instant(u16);

impl Instant {
    pub closed spec fn view(&self) -> u16 {
        self.0
    }

    /// Ticks from `start` to `self`, modulo 65,536: exact for any interval
    /// shorter than 65,536 ticks.
    pub fn elapsed(self, start: Instant) -> (r: u16)
        ensures
            r == wrapping_diff(self@, start@),
    {
        self.0.wrapping_sub(start.0)
    }
}

impl Default for Instant {
    /// The reading of a counter that has not yet ticked.
    fn default() -> (r: Instant)
        ensures
            r@ == 0,
    {
        Instant(0)
    }
}

/// The counter value after `n` ticks from `t`.
pub open spec fn ticks_after(t: u16, n: nat) -> u16
    decreases n,
{
    if n == 0 {
        t
    } else {
        next_tick(ticks_after(t, (n - 1) as nat))
    }
}

/// For any start value and any number of ticks `n` under 65,536, the
/// difference between the counter after those ticks and the start is `n`,
/// whether or not the counter wrapped through zero meanwhile.
pub proof fn lemma_elapsed_across_wrap(start: u16, n: nat)
    requires
        n < 65536,
    ensures
        wrapping_diff(ticks_after(start, n), start) == n,
{
    lemma_ticks_after(start, n);
}

proof fn lemma_ticks_after(start: u16, n: nat)
    ensures
        ticks_after(start, n) == (start + n) % 65536,
    decreases n,
{
    if n > 0 {
        lemma_ticks_after(start, (n - 1) as nat);
    }
}

} // verus!
