//! Serial transmitter for debugging output: 9600 baud, 8 data bits, one stop
//! bit, no parity.
use vstd::prelude::*;
use crate::hal::Mcu;
use crate::register::{
    Bit, BitBuilder, IoMemory, NotReadable, NotWritable, Readable, Register, RegisterType,
    SetValueType, Writable, bit_mask, bit_value, clear_bits, lemma_overwrite, reg_value, reg_written, set_value,
};

verus! {

/// USART 0 I/O Data Register.
pub struct UDR0;

impl Register for UDR0 {
    type DataType = u8;

    open spec fn spec_addr() -> nat {
        0xC6
    }

    open spec fn spec_write_mask() -> u16 {
        0xFF
    }

    fn addr() -> (r: usize) {
        proof {
            assert(<u8 as RegisterType>::spec_width() == 1);
        }
        0xC6
    }

    fn write_mask() -> (r: u16) {
        0xFF
    }

    proof fn lemma_layout() {
        assert(<u8 as RegisterType>::spec_width() == 1);
    }
}

/// USART 0 Control and Status Register A.
pub struct UCSR0A;

impl Register for UCSR0A {
    type DataType = u8;

    open spec fn spec_addr() -> nat {
        0xC0
    }

    open spec fn spec_write_mask() -> u16 {
        0b0100_0011
    }

    fn addr() -> (r: usize) {
        proof {
            assert(<u8 as RegisterType>::spec_width() == 1);
        }
        0xC0
    }

    fn write_mask() -> (r: u16) {
        0b0100_0011
    }

    proof fn lemma_layout() {
        assert(<u8 as RegisterType>::spec_width() == 1);
    }
}

/// USART 0 Multi-processor Communication Mode.
#[derive(Clone, Copy)]
pub struct MPCM0;

impl Bit for MPCM0 {
    type ReadAccess = Readable;
    type WriteAccess = Writable;
    type Register = UCSR0A;

    open spec fn spec_bit_id() -> nat {
        0
    }

    fn bit_id(&self) -> (r: u8) {
        proof {
            assert(<u8 as RegisterType>::spec_width() == 1);
        }
        0
    }
}

impl SetValueType for MPCM0 {
    type Register = UCSR0A;
    type WriteAccess = Writable;

    open spec fn spec_value(&self) -> u16 {
        bit_mask(0)
    }

    fn value(&self) -> (r: u16) {
        proof {
            assert(<u8 as RegisterType>::spec_width() == 1);
        }
        bit_value(0)
    }
}

/// USART 0 Double Transmission Speed.
#[derive(Clone, Copy)]
pub struct U2X0;

impl Bit for U2X0 {
    type ReadAccess = Readable;
    type WriteAccess = Writable;
    type Register = UCSR0A;

    open spec fn spec_bit_id() -> nat {
        1
    }

    fn bit_id(&self) -> (r: u8) {
        proof {
            assert(<u8 as RegisterType>::spec_width() == 1);
        }
        1
    }
}

impl SetValueType for U2X0 {
    type Register = UCSR0A;
    type WriteAccess = Writable;

    open spec fn spec_value(&self) -> u16 {
        bit_mask(1)
    }

    fn value(&self) -> (r: u16) {
        proof {
            assert(<u8 as RegisterType>::spec_width() == 1);
        }
        bit_value(1)
    }
}

/// USART 0 Data Register Empty.
#[derive(Clone, Copy)]
pub struct UDRE0;

impl Bit for UDRE0 {
    type ReadAccess = Readable;
    type WriteAccess = NotWritable;
    type Register = UCSR0A;

    open spec fn spec_bit_id() -> nat {
        5
    }

    fn bit_id(&self) -> (r: u8) {
        proof {
            assert(<u8 as RegisterType>::spec_width() == 1);
        }
        5
    }
}

impl SetValueType for UDRE0 {
    type Register = UCSR0A;
    type WriteAccess = NotWritable;

    open spec fn spec_value(&self) -> u16 {
        bit_mask(5)
    }

    fn value(&self) -> (r: u16) {
        proof {
            assert(<u8 as RegisterType>::spec_width() == 1);
        }
        bit_value(5)
    }
}

/// USART 0 Control and Status Register B.
pub struct UCSR0B;

impl Register for UCSR0B {
    type DataType = u8;

    open spec fn spec_addr() -> nat {
        0xC1
    }

    open spec fn spec_write_mask() -> u16 {
        0b1111_1101
    }

    fn addr() -> (r: usize) {
        proof {
            assert(<u8 as RegisterType>::spec_width() == 1);
        }
        0xC1
    }

    fn write_mask() -> (r: u16) {
        0b1111_1101
    }

    proof fn lemma_layout() {
        assert(<u8 as RegisterType>::spec_width() == 1);
    }
}

/// USART 0 Transmitter Enable.
#[derive(Clone, Copy)]
pub struct TXEN0;

impl Bit for TXEN0 {
    type ReadAccess = Readable;
    type WriteAccess = Writable;
    type Register = UCSR0B;

    open spec fn spec_bit_id() -> nat {
        3
    }

    fn bit_id(&self) -> (r: u8) {
        proof {
            assert(<u8 as RegisterType>::spec_width() == 1);
        }
        3
    }
}

impl SetValueType for TXEN0 {
    type Register = UCSR0B;
    type WriteAccess = Writable;

    open spec fn spec_value(&self) -> u16 {
        bit_mask(3)
    }

    fn value(&self) -> (r: u16) {
        proof {
            assert(<u8 as RegisterType>::spec_width() == 1);
        }
        bit_value(3)
    }
}

/// USART 0 Receiver Enable.
#[derive(Clone, Copy)]
pub struct RXEN0;

impl Bit for RXEN0 {
    type ReadAccess = Readable;
    type WriteAccess = Writable;
    type Register = UCSR0B;

    open spec fn spec_bit_id() -> nat {
        4
    }

    fn bit_id(&self) -> (r: u8) {
        proof {
            assert(<u8 as RegisterType>::spec_width() == 1);
        }
        4
    }
}

impl SetValueType for RXEN0 {
    type Register = UCSR0B;
    type WriteAccess = Writable;

    open spec fn spec_value(&self) -> u16 {
        bit_mask(4)
    }

    fn value(&self) -> (r: u16) {
        proof {
            assert(<u8 as RegisterType>::spec_width() == 1);
        }
        bit_value(4)
    }
}

/// USART 0 Control and Status Register C.
pub struct UCSR0C;

impl Register for UCSR0C {
    type DataType = u8;

    open spec fn spec_addr() -> nat {
        0xC2
    }

    open spec fn spec_write_mask() -> u16 {
        0xFF
    }

    fn addr() -> (r: usize) {
        proof {
            assert(<u8 as RegisterType>::spec_width() == 1);
        }
        0xC2
    }

    fn write_mask() -> (r: u16) {
        0xFF
    }

    proof fn lemma_layout() {
        assert(<u8 as RegisterType>::spec_width() == 1);
    }
}

/// USART 0 Character Size, bit 0.
#[derive(Clone, Copy)]
pub struct UCSZ00;

impl Bit for UCSZ00 {
    type ReadAccess = Readable;
    type WriteAccess = Writable;
    type Register = UCSR0C;

    open spec fn spec_bit_id() -> nat {
        1
    }

    fn bit_id(&self) -> (r: u8) {
        proof {
            assert(<u8 as RegisterType>::spec_width() == 1);
        }
        1
    }
}

impl SetValueType for UCSZ00 {
    type Register = UCSR0C;
    type WriteAccess = Writable;

    open spec fn spec_value(&self) -> u16 {
        bit_mask(1)
    }

    fn value(&self) -> (r: u16) {
        proof {
            assert(<u8 as RegisterType>::spec_width() == 1);
        }
        bit_value(1)
    }
}

/// USART 0 Character Size, bit 1.
#[derive(Clone, Copy)]
pub struct UCSZ01;

impl Bit for UCSZ01 {
    type ReadAccess = Readable;
    type WriteAccess = Writable;
    type Register = UCSR0C;

    open spec fn spec_bit_id() -> nat {
        2
    }

    fn bit_id(&self) -> (r: u8) {
        proof {
            assert(<u8 as RegisterType>::spec_width() == 1);
        }
        2
    }
}

impl SetValueType for UCSZ01 {
    type Register = UCSR0C;
    type WriteAccess = Writable;

    open spec fn spec_value(&self) -> u16 {
        bit_mask(2)
    }

    fn value(&self) -> (r: u16) {
        proof {
            assert(<u8 as RegisterType>::spec_width() == 1);
        }
        bit_value(2)
    }
}

/// USART 0 Baud Rate Register.
pub struct UBRR0;

impl Register for UBRR0 {
    type DataType = u16;

    open spec fn spec_addr() -> nat {
        0xC4
    }

    open spec fn spec_write_mask() -> u16 {
        0x0FFF
    }

    fn addr() -> (r: usize) {
        proof {
            assert(<u16 as RegisterType>::spec_width() == 2);
        }
        0xC4
    }

    fn write_mask() -> (r: u16) {
        0x0FFF
    }

    proof fn lemma_layout() {
        assert(<u16 as RegisterType>::spec_width() == 2);
    }
}

/// Baud-rate register value for 9600 baud at double speed from 16 MHz:
/// 16 MHz / 8 / 9600 - 1.
pub const UBBR_VAL: u16 = 207;

#[derive(Clone, Copy, PartialEq, Eq, Structural, Debug)]
pub enum USARTError {
    AlreadyInitialized,
}

/// The I/O space once `USART::init` has configured the transmitter.
pub open spec fn usart_configured(mem: Seq<u8>) -> Seq<u8> {
    let m1 = reg_written::<UBRR0>(mem, UBBR_VAL);
    let m2 = reg_written::<UCSR0A>(m1, (0u16 | bit_mask(1)) | bit_mask(0));
    let m3 = reg_written::<UCSR0B>(m2, (0u16 | bit_mask(4)) | bit_mask(3));
    reg_written::<UCSR0C>(m3, (0u16 | bit_mask(2)) | bit_mask(1))
}

/// The serial port; at most one is live at a time.
pub struct USART {
    _token: (),
}

impl USART {
    /// Configures the port, or fails if one is already live.
    pub fn init(mcu: &mut Mcu) -> (r: Result<USART, USARTError>)
        requires
            old(mcu).wf(),
        ensures
            final(mcu).wf(),
            old(mcu).usart_live ==> r == Err::<USART, USARTError>(USARTError::AlreadyInitialized)
                && *final(mcu) == *old(mcu),
            !old(mcu).usart_live ==> r is Ok && final(mcu).usart_live
                && final(mcu).io@ == usart_configured(old(mcu).io@)
                && final(mcu).serial_out == old(mcu).serial_out
                && final(mcu).twi == old(mcu).twi
                && final(mcu).twi_live == old(mcu).twi_live
                && final(mcu).clock_live == old(mcu).clock_live
                && final(mcu).ticks == old(mcu).ticks
                && final(mcu).interrupts_enabled == old(mcu).interrupts_enabled
                && final(mcu).busy_micros == old(mcu).busy_micros,
    {
        if mcu.usart_live {
            Err(USARTError::AlreadyInitialized)
        } else {
            let io = &mut mcu.io;
            UBRR0::set_raw_value(io, UBBR_VAL);
            set_value(io, BitBuilder::<UCSR0A, Readable, Writable>::new().bitor(U2X0).bitor(MPCM0));
            set_value(io, BitBuilder::<UCSR0B, Readable, Writable>::new().bitor(RXEN0).bitor(TXEN0));
            set_value(io, BitBuilder::<UCSR0C, Readable, Writable>::new().bitor(UCSZ01).bitor(UCSZ00));
            mcu.usart_live = true;
            Ok(USART { _token: () })
        }
    }

    /// Hands one byte to the transmitter through the data register. In this
    /// model the transmitter takes each byte at once, so the data register
    /// is always empty when the next one comes.
    pub fn send_byte(&mut self, mcu: &mut Mcu, data: u8)
        requires
            old(mcu).wf(),
        ensures
            final(mcu).wf(),
            final(mcu).io@ == reg_written::<UDR0>(old(mcu).io@, data as u16),
            final(mcu).serial_out@ == old(mcu).serial_out@.push(data),
            final(mcu).agrees_apart_from_serial(old(mcu)),
    {
        UDR0::set_raw_value(&mut mcu.io, data);
        mcu.serial_out.push(data);
    }

    /// Sends the bytes of `data` in order.
    pub fn send(&mut self, mcu: &mut Mcu, data: &[u8])
        requires
            old(mcu).wf(),
        ensures
            final(mcu).wf(),
            final(mcu).serial_out@ == old(mcu).serial_out@ + data@,
            final(mcu).agrees_apart_from_serial(old(mcu)),
            data@.len() == 0 ==> *final(mcu) == *old(mcu),
            data@.len() > 0 ==> final(mcu).io@ == reg_written::<UDR0>(
                old(mcu).io@,
                data@.last() as u16,
            ),
    {
        if data.len() == 0 {
            assert(old(mcu).serial_out@ + data@ =~= old(mcu).serial_out@);
            return;
        }
        let mut i: usize = 0;
        while i < data.len()
            invariant
                i <= data@.len(),
                mcu.wf(),
                mcu.serial_out@ == old(mcu).serial_out@ + data@.take(i as int),
                mcu.agrees_apart_from_serial(old(mcu)),
                data@.len() > 0,
                old(mcu).wf(),
                i > 0 ==> mcu.io@ == reg_written::<UDR0>(old(mcu).io@, data@[i - 1] as u16),
                i == 0 ==> mcu.io@ == old(mcu).io@,
            decreases data@.len() - i,
        {
            let ghost before = mcu.io@;
            self.send_byte(mcu, data[i]);
            proof {
                assert(<u8 as RegisterType>::spec_width() == 1);
                if i > 0 {
                    lemma_overwrite::<UDR0>(old(mcu).io@, data@[i - 1] as u16, data@[i as int] as u16);
                }
            }
            assert(data@.take(i as int).push(data@[i as int]) =~= data@.take(i + 1));
            i = i + 1;
        }
        assert(data@.take(data@.len() as int) =~= data@);
    }

    /// Turns the transmitter and receiver off and lets a new port be made.
    pub fn release(self, mcu: &mut Mcu)
        requires
            old(mcu).wf(),
        ensures
            final(mcu).wf(),
            !final(mcu).usart_live,
            final(mcu).io@ == reg_written::<UCSR0B>(
                old(mcu).io@,
                reg_value::<UCSR0B>(old(mcu).io@) & !((0u16 | bit_mask(3)) | bit_mask(4)),
            ),
            final(mcu).serial_out == old(mcu).serial_out,
            final(mcu).twi == old(mcu).twi,
            final(mcu).twi_live == old(mcu).twi_live,
            final(mcu).clock_live == old(mcu).clock_live,
            final(mcu).ticks == old(mcu).ticks,
            final(mcu).interrupts_enabled == old(mcu).interrupts_enabled,
            final(mcu).busy_micros == old(mcu).busy_micros,
    {
        clear_bits(&mut mcu.io, BitBuilder::<UCSR0B, Readable, Writable>::new().bitor(TXEN0).bitor(RXEN0));
        mcu.usart_live = false;
    }
}

} // verus!
