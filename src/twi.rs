//! Master-transmit driver for the two-wire (I2C-style) bus.
//!
//! A write is carried out by an interrupt-driven state machine: the
//! foreground fills the driver's buffer and issues a START; each bus event
//! then raises the peripheral's interrupt, whose handler reads the status
//! code and answers it (send the address, send the next byte, stop, or give
//! the bus up). The foreground waits until the handler hands the state back.
use vstd::prelude::*;
use crate::hal::Mcu;
use crate::progmem::ByteBundle;
use crate::ports::{DDRC, DDRC4, DDRC5, PORTC, PORTC4, PORTC5};
use crate::register::{
    Bit, BitBuilder, IoMemory, NotReadable, NotWritable, Readable, Register, RegisterType,
    SetValueType, Writable, bit_mask, bit_value, clear_bits, get_bit, reg_value, reg_written, set_bits,
    set_value,
};

verus! {

/// TWI Bit Rate Register.
pub struct TWBR;

impl Register for TWBR {
    type DataType = u8;

    open spec fn spec_addr() -> nat {
        0xB8
    }

    open spec fn spec_write_mask() -> u16 {
        0xFF
    }

    fn addr() -> (r: usize) {
        proof {
            assert(<u8 as RegisterType>::spec_width() == 1);
        }
        0xB8
    }

    fn write_mask() -> (r: u16) {
        0xFF
    }

    proof fn lemma_layout() {
        assert(<u8 as RegisterType>::spec_width() == 1);
    }
}

/// TWI Status Register.
pub struct TWSR;

impl Register for TWSR {
    type DataType = u8;

    open spec fn spec_addr() -> nat {
        0xB9
    }

    open spec fn spec_write_mask() -> u16 {
        0b0000_0011
    }

    fn addr() -> (r: usize) {
        proof {
            assert(<u8 as RegisterType>::spec_width() == 1);
        }
        0xB9
    }

    fn write_mask() -> (r: u16) {
        0b0000_0011
    }

    proof fn lemma_layout() {
        assert(<u8 as RegisterType>::spec_width() == 1);
    }
}

/// TWI Prescaler, bit 0.
#[derive(Clone, Copy)]
pub struct TWPS0;

impl Bit for TWPS0 {
    type ReadAccess = Readable;
    type WriteAccess = Writable;
    type Register = TWSR;

    open spec fn spec_bit_id() -> nat {
        0
    }

    fn bit_id(&self) -> (r: u8) {
        proof {
            assert(<u8 as RegisterType>::spec_width() == 1);
        }
        0
    }
}

impl SetValueType for TWPS0 {
    type Register = TWSR;
    type WriteAccess = Writable;

    open spec fn spec_value(&self) -> u16 {
        bit_mask(0)
    }

    fn value(&self) -> (r: u16) {
        proof {
            assert(<u8 as RegisterType>::spec_width() == 1);
        }
        bit_value(0)
    }
}

/// TWI Prescaler, bit 1.
#[derive(Clone, Copy)]
pub struct TWPS1;

impl Bit for TWPS1 {
    type ReadAccess = Readable;
    type WriteAccess = Writable;
    type Register = TWSR;

    open spec fn spec_bit_id() -> nat {
        1
    }

    fn bit_id(&self) -> (r: u8) {
        proof {
            assert(<u8 as RegisterType>::spec_width() == 1);
        }
        1
    }
}

impl SetValueType for TWPS1 {
    type Register = TWSR;
    type WriteAccess = Writable;

    open spec fn spec_value(&self) -> u16 {
        bit_mask(1)
    }

    fn value(&self) -> (r: u16) {
        proof {
            assert(<u8 as RegisterType>::spec_width() == 1);
        }
        bit_value(1)
    }
}

/// TWI Status, bit 0.
#[derive(Clone, Copy)]
pub struct TWS0;

impl Bit for TWS0 {
    type ReadAccess = Readable;
    type WriteAccess = NotWritable;
    type Register = TWSR;

    open spec fn spec_bit_id() -> nat {
        3
    }

    fn bit_id(&self) -> (r: u8) {
        proof {
            assert(<u8 as RegisterType>::spec_width() == 1);
        }
        3
    }
}

impl SetValueType for TWS0 {
    type Register = TWSR;
    type WriteAccess = NotWritable;

    open spec fn spec_value(&self) -> u16 {
        bit_mask(3)
    }

    fn value(&self) -> (r: u16) {
        proof {
            assert(<u8 as RegisterType>::spec_width() == 1);
        }
        bit_value(3)
    }
}

/// TWI Status, bit 1.
#[derive(Clone, Copy)]
pub struct TWS1;

impl Bit for TWS1 {
    type ReadAccess = Readable;
    type WriteAccess = NotWritable;
    type Register = TWSR;

    open spec fn spec_bit_id() -> nat {
        4
    }

    fn bit_id(&self) -> (r: u8) {
        proof {
            assert(<u8 as RegisterType>::spec_width() == 1);
        }
        4
    }
}

impl SetValueType for TWS1 {
    type Register = TWSR;
    type WriteAccess = NotWritable;

    open spec fn spec_value(&self) -> u16 {
        bit_mask(4)
    }

    fn value(&self) -> (r: u16) {
        proof {
            assert(<u8 as RegisterType>::spec_width() == 1);
        }
        bit_value(4)
    }
}

/// TWI Status, bit 2.
#[derive(Clone, Copy)]
pub struct TWS2;

impl Bit for TWS2 {
    type ReadAccess = Readable;
    type WriteAccess = NotWritable;
    type Register = TWSR;

    open spec fn spec_bit_id() -> nat {
        5
    }

    fn bit_id(&self) -> (r: u8) {
        proof {
            assert(<u8 as RegisterType>::spec_width() == 1);
        }
        5
    }
}

impl SetValueType for TWS2 {
    type Register = TWSR;
    type WriteAccess = NotWritable;

    open spec fn spec_value(&self) -> u16 {
        bit_mask(5)
    }

    fn value(&self) -> (r: u16) {
        proof {
            assert(<u8 as RegisterType>::spec_width() == 1);
        }
        bit_value(5)
    }
}

/// TWI Status, bit 3.
#[derive(Clone, Copy)]
pub struct TWS3;

impl Bit for TWS3 {
    type ReadAccess = Readable;
    type WriteAccess = NotWritable;
    type Register = TWSR;

    open spec fn spec_bit_id() -> nat {
        6
    }

    fn bit_id(&self) -> (r: u8) {
        proof {
            assert(<u8 as RegisterType>::spec_width() == 1);
        }
        6
    }
}

impl SetValueType for TWS3 {
    type Register = TWSR;
    type WriteAccess = NotWritable;

    open spec fn spec_value(&self) -> u16 {
        bit_mask(6)
    }

    fn value(&self) -> (r: u16) {
        proof {
            assert(<u8 as RegisterType>::spec_width() == 1);
        }
        bit_value(6)
    }
}

/// TWI Status, bit 4.
#[derive(Clone, Copy)]
pub struct TWS4;

impl Bit for TWS4 {
    type ReadAccess = Readable;
    type WriteAccess = NotWritable;
    type Register = TWSR;

    open spec fn spec_bit_id() -> nat {
        7
    }

    fn bit_id(&self) -> (r: u8) {
        proof {
            assert(<u8 as RegisterType>::spec_width() == 1);
        }
        7
    }
}

impl SetValueType for TWS4 {
    type Register = TWSR;
    type WriteAccess = NotWritable;

    open spec fn spec_value(&self) -> u16 {
        bit_mask(7)
    }

    fn value(&self) -> (r: u16) {
        proof {
            assert(<u8 as RegisterType>::spec_width() == 1);
        }
        bit_value(7)
    }
}

/// TWI Data Register.
pub struct TWDR;

impl Register for TWDR {
    type DataType = u8;

    open spec fn spec_addr() -> nat {
        0xBB
    }

    open spec fn spec_write_mask() -> u16 {
        0xFF
    }

    fn addr() -> (r: usize) {
        proof {
            assert(<u8 as RegisterType>::spec_width() == 1);
        }
        0xBB
    }

    fn write_mask() -> (r: u16) {
        0xFF
    }

    proof fn lemma_layout() {
        assert(<u8 as RegisterType>::spec_width() == 1);
    }
}

/// TWI Control Register.
pub struct TWCR;

impl Register for TWCR {
    type DataType = u8;

    open spec fn spec_addr() -> nat {
        0xBC
    }

    open spec fn spec_write_mask() -> u16 {
        0b1111_0101
    }

    fn addr() -> (r: usize) {
        proof {
            assert(<u8 as RegisterType>::spec_width() == 1);
        }
        0xBC
    }

    fn write_mask() -> (r: u16) {
        0b1111_0101
    }

    proof fn lemma_layout() {
        assert(<u8 as RegisterType>::spec_width() == 1);
    }
}

/// TWI Interrupt Enable.
#[derive(Clone, Copy)]
pub struct TWIE;

impl Bit for TWIE {
    type ReadAccess = Readable;
    type WriteAccess = Writable;
    type Register = TWCR;

    open spec fn spec_bit_id() -> nat {
        0
    }

    fn bit_id(&self) -> (r: u8) {
        proof {
            assert(<u8 as RegisterType>::spec_width() == 1);
        }
        0
    }
}

impl SetValueType for TWIE {
    type Register = TWCR;
    type WriteAccess = Writable;

    open spec fn spec_value(&self) -> u16 {
        bit_mask(0)
    }

    fn value(&self) -> (r: u16) {
        proof {
            assert(<u8 as RegisterType>::spec_width() == 1);
        }
        bit_value(0)
    }
}

/// TWI Enable.
#[derive(Clone, Copy)]
pub struct TWEN;

impl Bit for TWEN {
    type ReadAccess = Readable;
    type WriteAccess = Writable;
    type Register = TWCR;

    open spec fn spec_bit_id() -> nat {
        2
    }

    fn bit_id(&self) -> (r: u8) {
        proof {
            assert(<u8 as RegisterType>::spec_width() == 1);
        }
        2
    }
}

impl SetValueType for TWEN {
    type Register = TWCR;
    type WriteAccess = Writable;

    open spec fn spec_value(&self) -> u16 {
        bit_mask(2)
    }

    fn value(&self) -> (r: u16) {
        proof {
            assert(<u8 as RegisterType>::spec_width() == 1);
        }
        bit_value(2)
    }
}

/// TWI Write Collision Flag.
#[derive(Clone, Copy)]
pub struct TWWC;

impl Bit for TWWC {
    type ReadAccess = Readable;
    type WriteAccess = NotWritable;
    type Register = TWCR;

    open spec fn spec_bit_id() -> nat {
        3
    }

    fn bit_id(&self) -> (r: u8) {
        proof {
            assert(<u8 as RegisterType>::spec_width() == 1);
        }
        3
    }
}

impl SetValueType for TWWC {
    type Register = TWCR;
    type WriteAccess = NotWritable;

    open spec fn spec_value(&self) -> u16 {
        bit_mask(3)
    }

    fn value(&self) -> (r: u16) {
        proof {
            assert(<u8 as RegisterType>::spec_width() == 1);
        }
        bit_value(3)
    }
}

/// TWI Stop Condition.
#[derive(Clone, Copy)]
pub struct TWSTO;

impl Bit for TWSTO {
    type ReadAccess = Readable;
    type WriteAccess = Writable;
    type Register = TWCR;

    open spec fn spec_bit_id() -> nat {
        4
    }

    fn bit_id(&self) -> (r: u8) {
        proof {
            assert(<u8 as RegisterType>::spec_width() == 1);
        }
        4
    }
}

impl SetValueType for TWSTO {
    type Register = TWCR;
    type WriteAccess = Writable;

    open spec fn spec_value(&self) -> u16 {
        bit_mask(4)
    }

    fn value(&self) -> (r: u16) {
        proof {
            assert(<u8 as RegisterType>::spec_width() == 1);
        }
        bit_value(4)
    }
}

/// TWI Start Condition.
#[derive(Clone, Copy)]
pub struct TWSTA;

impl Bit for TWSTA {
    type ReadAccess = Readable;
    type WriteAccess = Writable;
    type Register = TWCR;

    open spec fn spec_bit_id() -> nat {
        5
    }

    fn bit_id(&self) -> (r: u8) {
        proof {
            assert(<u8 as RegisterType>::spec_width() == 1);
        }
        5
    }
}

impl SetValueType for TWSTA {
    type Register = TWCR;
    type WriteAccess = Writable;

    open spec fn spec_value(&self) -> u16 {
        bit_mask(5)
    }

    fn value(&self) -> (r: u16) {
        proof {
            assert(<u8 as RegisterType>::spec_width() == 1);
        }
        bit_value(5)
    }
}

/// TWI Enable Acknowledge.
#[derive(Clone, Copy)]
pub struct TWEA;

impl Bit for TWEA {
    type ReadAccess = Readable;
    type WriteAccess = Writable;
    type Register = TWCR;

    open spec fn spec_bit_id() -> nat {
        6
    }

    fn bit_id(&self) -> (r: u8) {
        proof {
            assert(<u8 as RegisterType>::spec_width() == 1);
        }
        6
    }
}

impl SetValueType for TWEA {
    type Register = TWCR;
    type WriteAccess = Writable;

    open spec fn spec_value(&self) -> u16 {
        bit_mask(6)
    }

    fn value(&self) -> (r: u16) {
        proof {
            assert(<u8 as RegisterType>::spec_width() == 1);
        }
        bit_value(6)
    }
}

/// TWI Interrupt Flag.
#[derive(Clone, Copy)]
pub struct TWINT;

impl Bit for TWINT {
    type ReadAccess = Readable;
    type WriteAccess = Writable;
    type Register = TWCR;

    open spec fn spec_bit_id() -> nat {
        7
    }

    fn bit_id(&self) -> (r: u8) {
        proof {
            assert(<u8 as RegisterType>::spec_width() == 1);
        }
        7
    }
}

impl SetValueType for TWINT {
    type Register = TWCR;
    type WriteAccess = Writable;

    open spec fn spec_value(&self) -> u16 {
        bit_mask(7)
    }

    fn value(&self) -> (r: u16) {
        proof {
            assert(<u8 as RegisterType>::spec_width() == 1);
        }
        bit_value(7)
    }
}

/// Capacity of the outbound buffer, in bytes.
pub const BUFFER_LEN: usize = 32;

/// Bit-rate register value for a 400 kHz bus from a 16 MHz clock with a
/// prescaler of 1: (16 MHz / 400 kHz - 16) / 2.
pub const TWI_BIT_RATE: u8 = 12;

/// TWCR value that sends a START with the interrupt enabled.
pub const TWCR_START: u16 = 0xE5;

/// TWCR value that answers an event and acknowledges.
pub const TWCR_REPLY_ACK: u16 = 0xC5;

/// TWCR value that answers an event without acknowledging.
pub const TWCR_REPLY_NACK: u16 = 0x85;

/// TWCR value that sends a STOP.
pub const TWCR_STOP: u16 = 0xD4;

/// TWCR value that gives the bus up without a STOP.
pub const TWCR_RELEASE: u16 = 0xC4;

/// TWCR value once the peripheral has put a STOP on the bus: enabled and
/// acknowledging, with the stop and interrupt flags clear.
pub const TWCR_STOP_DONE: u16 = 0x44;

/// The status codes of the peripheral.
#[derive(Clone, Copy, PartialEq, Eq, Structural, Debug)]
pub enum TWSRStatus {
    Start,
    RepStart,
    MtSlaAck,
    MtDataAck,
    MtSlaNack,
    MtDataNack,
    MtArbLost,
    MrDataAck,
    MrSlaAck,
    MrDataNack,
    MrSlaNack,
    SrSlaAck,
    SrGCallAck,
    SrArbLostSlaAck,
    SrArbLostGCallAck,
    SrDataAck,
    SrGCallDataAck,
    SrStop,
    SrDataNack,
    SrGCallDataNack,
    StSlaAck,
    StArbLostSlaAck,
    StDataAck,
    StDataNack,
    StLastData,
    NoInfo,
    BusError,
    /// A code the peripheral does not define; it holds the code.
    Reserved(u8),
}

/// The status named by a code of the status register's upper five bits.
pub open spec fn status_of(code: u8) -> TWSRStatus {
    if code == 0x08 {
        TWSRStatus::Start
    } else if code == 0x10 {
        TWSRStatus::RepStart
    } else if code == 0x18 {
        TWSRStatus::MtSlaAck
    } else if code == 0x28 {
        TWSRStatus::MtDataAck
    } else if code == 0x20 {
        TWSRStatus::MtSlaNack
    } else if code == 0x30 {
        TWSRStatus::MtDataNack
    } else if code == 0x38 {
        TWSRStatus::MtArbLost
    } else if code == 0x50 {
        TWSRStatus::MrDataAck
    } else if code == 0x40 {
        TWSRStatus::MrSlaAck
    } else if code == 0x58 {
        TWSRStatus::MrDataNack
    } else if code == 0x48 {
        TWSRStatus::MrSlaNack
    } else if code == 0x60 {
        TWSRStatus::SrSlaAck
    } else if code == 0x70 {
        TWSRStatus::SrGCallAck
    } else if code == 0x68 {
        TWSRStatus::SrArbLostSlaAck
    } else if code == 0x78 {
        TWSRStatus::SrArbLostGCallAck
    } else if code == 0x80 {
        TWSRStatus::SrDataAck
    } else if code == 0x90 {
        TWSRStatus::SrGCallDataAck
    } else if code == 0xA0 {
        TWSRStatus::SrStop
    } else if code == 0x88 {
        TWSRStatus::SrDataNack
    } else if code == 0x98 {
        TWSRStatus::SrGCallDataNack
    } else if code == 0xA8 {
        TWSRStatus::StSlaAck
    } else if code == 0xB0 {
        TWSRStatus::StArbLostSlaAck
    } else if code == 0xB8 {
        TWSRStatus::StDataAck
    } else if code == 0xC0 {
        TWSRStatus::StDataNack
    } else if code == 0xC8 {
        TWSRStatus::StLastData
    } else if code == 0xF8 {
        TWSRStatus::NoInfo
    } else if code == 0x00 {
        TWSRStatus::BusError
    } else {
        TWSRStatus::Reserved(code)
    }
}

impl TWSRStatus {
    /// The status named by `code`.
    pub fn from_code(code: u8) -> (r: TWSRStatus)
        ensures
            r == status_of(code),
    {
        if code == 0x08 {
            TWSRStatus::Start
        } else if code == 0x10 {
            TWSRStatus::RepStart
        } else if code == 0x18 {
            TWSRStatus::MtSlaAck
        } else if code == 0x28 {
            TWSRStatus::MtDataAck
        } else if code == 0x20 {
            TWSRStatus::MtSlaNack
        } else if code == 0x30 {
            TWSRStatus::MtDataNack
        } else if code == 0x38 {
            TWSRStatus::MtArbLost
        } else if code == 0x50 {
            TWSRStatus::MrDataAck
        } else if code == 0x40 {
            TWSRStatus::MrSlaAck
        } else if code == 0x58 {
            TWSRStatus::MrDataNack
        } else if code == 0x48 {
            TWSRStatus::MrSlaNack
        } else if code == 0x60 {
            TWSRStatus::SrSlaAck
        } else if code == 0x70 {
            TWSRStatus::SrGCallAck
        } else if code == 0x68 {
            TWSRStatus::SrArbLostSlaAck
        } else if code == 0x78 {
            TWSRStatus::SrArbLostGCallAck
        } else if code == 0x80 {
            TWSRStatus::SrDataAck
        } else if code == 0x90 {
            TWSRStatus::SrGCallDataAck
        } else if code == 0xA0 {
            TWSRStatus::SrStop
        } else if code == 0x88 {
            TWSRStatus::SrDataNack
        } else if code == 0x98 {
            TWSRStatus::SrGCallDataNack
        } else if code == 0xA8 {
            TWSRStatus::StSlaAck
        } else if code == 0xB0 {
            TWSRStatus::StArbLostSlaAck
        } else if code == 0xB8 {
            TWSRStatus::StDataAck
        } else if code == 0xC0 {
            TWSRStatus::StDataNack
        } else if code == 0xC8 {
            TWSRStatus::StLastData
        } else if code == 0xF8 {
            TWSRStatus::NoInfo
        } else if code == 0x00 {
            TWSRStatus::BusError
        } else {
            TWSRStatus::Reserved(code)
        }
    }
}

/// The status the register holds: its upper five bits.
pub open spec fn current_status(mem: Seq<u8>) -> TWSRStatus {
    status_of((reg_value::<TWSR>(mem) & 0xF8) as u8)
}

impl TWSR {
    /// Reads the status code out of the status register.
    pub fn status(io: &IoMemory) -> (r: TWSRStatus)
        requires
            io.wf(),
        ensures
            r == current_status(io@),
    {
        let mask = BitBuilder::<TWSR, Readable, Writable>::new().bitor(TWS0).bitor(TWS1).bitor(
            TWS2,
        ).bitor(TWS3).bitor(TWS4);
        assert(((((0u16 | 8u16) | 16u16) | 32u16) | 64u16) | 128u16 == 0xF8u16) by (bit_vector);
        let v = TWSR::read_bits(io);
        let m = mask.value();
        assert(v < 256 ==> (v & 0xF8) < 256) by (bit_vector);
        TWSRStatus::from_code((v & m) as u8)
    }
}

/// The driver's state.
#[derive(Clone, Copy, PartialEq, Eq, Structural, Debug)]
pub enum TwiState {
    Uninitialized,
    Ready,
    Transmitting,
}

/// An error as returned to the user.
#[derive(Clone, Copy, PartialEq, Eq, Structural, Debug)]
pub enum TWIError {
    BufferLenError,
    SendAddressNACK,
    SendDataNACK,
    NotReady,
    ArbitrationLost,
    BusError,
    AlreadyInitialized,
    InvalidAddress,
}

/// A first-in first-out buffer of the bytes still to be sent.
pub struct Buffer {
    idx: u8,
    len: u8,
    buf: [u8; BUFFER_LEN],
}

impl Buffer {
    /// The bytes not yet popped, in order.
    pub closed spec fn view(&self) -> Seq<u8> {
        self.buf@.subrange(self.idx as int, self.len as int)
    }

    pub closed spec fn wf(&self) -> bool {
        self.idx <= self.len <= BUFFER_LEN
    }

    pub fn new() -> (r: Buffer)
        ensures
            r.wf(),
            r@.len() == 0,
    {
        Buffer { idx: 0, len: 0, buf: [0u8; 32] }
    }

    /// Replaces the contents with `data`, or fails if it does not fit.
    pub fn set<T: ByteBundle + ?Sized>(&mut self, data: &T) -> (r: Result<(), TWIError>)
        requires
            old(self).wf(),
        ensures
            final(self).wf(),
            data.bytes().len() > BUFFER_LEN ==> r == Err::<(), TWIError>(TWIError::BufferLenError)
                && *final(self) == *old(self),
            data.bytes().len() <= BUFFER_LEN ==> r is Ok && final(self)@ == data.bytes(),
    {
        if BUFFER_LEN < data.length() {
            Err(TWIError::BufferLenError)
        } else {
            let n = data.length();
            let mut i: usize = 0;
            while i < n
                invariant
                    n == data.bytes().len(),
                    n <= BUFFER_LEN,
                    i <= n,
                    self.buf@.len() == BUFFER_LEN,
                    forall|j: int| 0 <= j < i ==> #[trigger] self.buf@[j] == data.bytes()[j],
                decreases n - i,
            {
                self.buf[i] = data.get(i);
                i = i + 1;
            }
            self.len = n as u8;
            self.idx = 0;
            assert(self@ =~= data.bytes());
            Ok(())
        }
    }

    /// Takes the first byte off the front, if any remains.
    pub fn pop(&mut self) -> (r: Option<u8>)
        requires
            old(self).wf(),
        ensures
            final(self).wf(),
            old(self)@.len() == 0 ==> r is None && final(self)@ == old(self)@,
            old(self)@.len() > 0 ==> r == Some(old(self)@[0]) && final(self)@ == old(self)@.drop_first(),
    {
        if self.idx == self.len {
            None
        } else {
            let val = self.buf[self.idx as usize];
            self.idx = self.idx + 1;
            assert(self@ =~= old(self)@.drop_first());
            Some(val)
        }
    }
}

/// What the interrupt handler does to the peripheral in answer to a status.
#[derive(Clone, Copy, PartialEq, Eq, Structural, Debug)]
pub enum TwiAction {
    /// Load the byte into the data register and answer with an acknowledge.
    Transmit(u8),
    /// Send a STOP.
    Stop,
    /// Give the bus up without a STOP.
    ReleaseBus,
    /// Answer without an acknowledge.
    Nack,
    /// Leave the peripheral as it is.
    Idle,
}

/// The record the foreground shares with the interrupt handler.
pub struct TwiShared {
    pub state: TwiState,
    /// The target's address, shifted left once, with the write bit (zero).
    pub address: u8,
    /// The status that ended the last transaction, `NoInfo` if none did.
    pub error: TWSRStatus,
    pub buffer: Buffer,
}

/// The handler's answer to `status`, given the bytes still to send.
pub open spec fn action_for(address: u8, pending: Seq<u8>, status: TWSRStatus) -> TwiAction {
    match status {
        TWSRStatus::Start | TWSRStatus::RepStart => TwiAction::Transmit(address),
        TWSRStatus::MtSlaAck | TWSRStatus::MtDataAck => if pending.len() > 0 {
            TwiAction::Transmit(pending[0])
        } else {
            TwiAction::Stop
        },
        TWSRStatus::MtSlaNack | TWSRStatus::MtDataNack | TWSRStatus::BusError => TwiAction::Stop,
        TWSRStatus::MtArbLost => TwiAction::ReleaseBus,
        TWSRStatus::NoInfo => TwiAction::Idle,
        _ => TwiAction::Nack,
    }
}

/// The bytes still to send after the handler answers `status`.
pub open spec fn pending_after(pending: Seq<u8>, status: TWSRStatus) -> Seq<u8> {
    match status {
        TWSRStatus::MtSlaAck | TWSRStatus::MtDataAck => if pending.len() > 0 {
            pending.drop_first()
        } else {
            pending
        },
        _ => pending,
    }
}

/// Whether the handler ends the transaction on `status`.
pub open spec fn ends_transaction(pending: Seq<u8>, status: TWSRStatus) -> bool {
    match status {
        TWSRStatus::MtSlaAck | TWSRStatus::MtDataAck => pending.len() == 0,
        TWSRStatus::MtSlaNack | TWSRStatus::MtDataNack | TWSRStatus::MtArbLost
        | TWSRStatus::BusError => true,
        _ => false,
    }
}

/// The recorded error after the handler answers `status`.
pub open spec fn error_after(error: TWSRStatus, status: TWSRStatus) -> TWSRStatus {
    match status {
        TWSRStatus::MtSlaNack | TWSRStatus::MtDataNack | TWSRStatus::MtArbLost
        | TWSRStatus::BusError => status,
        _ => error,
    }
}

impl TwiShared {
    pub open spec fn wf(&self) -> bool {
        self.buffer.wf()
    }

    pub fn new() -> (r: TwiShared)
        ensures
            r.wf(),
            r.state == TwiState::Uninitialized,
            r.address == 0,
            r.error == TWSRStatus::NoInfo,
            r.buffer@.len() == 0,
    {
        TwiShared {
            state: TwiState::Uninitialized,
            address: 0,
            error: TWSRStatus::NoInfo,
            buffer: Buffer::new(),
        }
    }

    /// The handler's transition table: answers one status code.
    pub fn on_status(&mut self, status: TWSRStatus) -> (r: TwiAction)
        requires
            old(self).wf(),
        ensures
            final(self).wf(),
            r == action_for(old(self).address, old(self).buffer@, status),
            final(self).buffer@ == pending_after(old(self).buffer@, status),
            final(self).error == error_after(old(self).error, status),
            final(self).state == (if ends_transaction(old(self).buffer@, status) {
                TwiState::Ready
            } else {
                old(self).state
            }),
            final(self).address == old(self).address,
    {
        match status {
            TWSRStatus::Start | TWSRStatus::RepStart => TwiAction::Transmit(self.address),
            TWSRStatus::MtSlaAck | TWSRStatus::MtDataAck => {
                match self.buffer.pop() {
                    Some(byte) => TwiAction::Transmit(byte),
                    None => {
                        self.state = TwiState::Ready;
                        TwiAction::Stop
                    },
                }
            },
            TWSRStatus::MtSlaNack | TWSRStatus::MtDataNack | TWSRStatus::BusError => {
                self.error = status;
                self.state = TwiState::Ready;
                TwiAction::Stop
            },
            TWSRStatus::MtArbLost => {
                self.error = status;
                self.state = TwiState::Ready;
                TwiAction::ReleaseBus
            },
            TWSRStatus::NoInfo => TwiAction::Idle,
            _ => TwiAction::Nack,
        }
    }
}


/// The concrete bit patterns this driver writes and tests.
proof fn lemma_twi_constants()
    ensures
        TWCR_START & 0xF5 == TWCR_START,
        TWCR_REPLY_ACK & 0xF5 == TWCR_REPLY_ACK,
        TWCR_REPLY_NACK & 0xF5 == TWCR_REPLY_NACK,
        TWCR_STOP & 0xF5 == TWCR_STOP,
        TWCR_RELEASE & 0xF5 == TWCR_RELEASE,
        command_of(TWCR_START) == TwiCommand::Start,
        command_of(TWCR_REPLY_ACK) == TwiCommand::Transmit,
        command_of(TWCR_STOP) == TwiCommand::Stop,
        command_of(TWCR_RELEASE) == TwiCommand::Release,
        (((0u16 | bit_mask(2)) | bit_mask(0)) | bit_mask(7)) == TWCR_REPLY_NACK,
        TWCR_REPLY_NACK | bit_mask(6) == TWCR_REPLY_ACK,
        ((((0u16 | bit_mask(7)) | bit_mask(6)) | bit_mask(2)) | bit_mask(0)) | bit_mask(5)
            == TWCR_START,
        (((0u16 | bit_mask(2)) | bit_mask(6)) | bit_mask(7)) | bit_mask(4) == TWCR_STOP,
        ((0u16 | bit_mask(2)) | bit_mask(6)) | bit_mask(7) == TWCR_RELEASE,
        TWCR_STOP & 0x6F == TWCR_STOP_DONE,
        TWCR_STOP & bit_mask(4) != 0,
        TWCR_STOP_DONE & bit_mask(4) == 0,
        command_of(TWCR_STOP_DONE) == TwiCommand::Idle,
{
    assert(0xE5u16 & 0xF5u16 == 0xE5u16 && 0xC5u16 & 0xF5u16 == 0xC5u16 && 0x85u16 & 0xF5u16
        == 0x85u16 && 0xD4u16 & 0xF5u16 == 0xD4u16 && 0xC4u16 & 0xF5u16 == 0xC4u16 && 0xE5u16
        & 0x80u16 != 0 && 0xE5u16 & 0x20u16 != 0 && 0xC5u16 & 0x80u16 != 0 && 0xC5u16 & 0x20u16
        == 0 && 0xC5u16 & 0x10u16 == 0 && 0xC5u16 & 0x01u16 != 0 && 0xD4u16 & 0x80u16 != 0
        && 0xD4u16 & 0x20u16 == 0 && 0xD4u16 & 0x10u16 != 0 && 0xC4u16 & 0x80u16 != 0 && 0xC4u16
        & 0x20u16 == 0 && 0xC4u16 & 0x10u16 == 0 && 0xC4u16 & 0x01u16 == 0 && ((0u16 | 4u16)
        | 1u16) | 128u16 == 0x85u16 && 0x85u16 | 64u16 == 0xC5u16 && ((((0u16 | 128u16) | 64u16)
        | 4u16) | 1u16) | 32u16 == 0xE5u16 && (((0u16 | 4u16) | 64u16) | 128u16) | 16u16
        == 0xD4u16 && ((0u16 | 4u16) | 64u16) | 128u16 == 0xC4u16 && 0xD4u16 & 0x6Fu16 == 0x44u16
        && 0x44u16 & 0x10u16 == 0 && 0x44u16 & 0x80u16 == 0) by (bit_vector);
}

/// A byte keeps its value through the data register, whose mask is all ones.
proof fn lemma_full_mask(b: u8)
    ensures
        ((b as u16 & 0xFF) as u8) == b,
{
    assert(((b as u16 & 0xFF) as u8) == b) by (bit_vector);
}

/// What the status register reads once the peripheral has stored `code`,
/// keeping the prescaler bits `x`.
proof fn lemma_status_code(x: u8, code: u8)
    requires
        code == 0x08 || code == 0x18 || code == 0x20 || code == 0x28 || code == 0x30 || code
            == 0x38 || code == 0x00 || code == 0xF8,
    ensures
        (((((x & 3) | code) as u8) as u16 & 0xF8) as u8) == code,
{
    assert((code == 0x08 || code == 0x18 || code == 0x20 || code == 0x28 || code == 0x30 || code
        == 0x38 || code == 0x00 || code == 0xF8) ==> (((((x & 3) | code) as u8) as u16 & 0xF8)
        as u8) == code) by (bit_vector);
}

/// Writes TWCR to answer an event, with or without an acknowledge.
fn send_reply(io: &mut IoMemory, ack: bool)
    requires
        old(io).wf(),
    ensures
        final(io).wf(),
        final(io)@ == reg_written::<TWCR>(
            old(io)@,
            if ack {
                TWCR_REPLY_ACK
            } else {
                TWCR_REPLY_NACK
            },
        ),
{
    proof {
        lemma_twi_constants();
    }
    let mut bits = BitBuilder::<TWCR, Readable, Writable>::new().bitor(TWEN).bitor(TWIE).bitor(
        TWINT,
    );
    if ack {
        bits.bitor_assign(TWEA);
    }
    set_value(io, bits);
}

/// Sends a STOP and waits until the peripheral has put it on the bus, which
/// it shows by clearing TWSTO (TWINT is not set after a STOP).
fn stop(io: &mut IoMemory, bus: &mut SimBus)
    requires
        old(io).wf(),
    ensures
        final(io).wf(),
        final(io)@ == stopped(old(io)@),
        reg_value::<TWCR>(final(io)@) & bit_mask(4) == 0,
        final(bus).events@ == old(bus).events@.push(BusEvent::Stop),
        final(bus).same_slave(&*old(bus)),
        final(bus).expecting_address == old(bus).expecting_address,
        final(bus).data_bytes == old(bus).data_bytes,
{
    proof {
        lemma_twi_constants();
    }
    set_value(
        io,
        BitBuilder::<TWCR, Readable, Writable>::new().bitor(TWEN).bitor(TWEA).bitor(TWINT).bitor(
            TWSTO,
        ),
    );
    let ghost m1 = io@;
    proof {
        assert(reg_value::<TWCR>(m1) == TWCR_STOP);
    }
    while get_bit(io, TWSTO)
        invariant
            io.wf(),
            old(io)@.len() == crate::register::IO_SIZE,
            m1 == reg_written::<TWCR>(old(io)@, TWCR_STOP),
            reg_value::<TWCR>(m1) == TWCR_STOP,
            bus.same_slave(&*old(bus)),
            bus.expecting_address == old(bus).expecting_address,
            bus.data_bytes == old(bus).data_bytes,
            io@ == m1 && bus.events@ == old(bus).events@ || io@ == stopped(old(io)@)
                && bus.events@ == old(bus).events@.push(BusEvent::Stop),
        decreases (if reg_value::<TWCR>(io@) & bit_mask(4) != 0 {
            1int
        } else {
            0int
        }),
    {
        proof {
            lemma_twi_constants();
            assert(<u8 as RegisterType>::spec_width() == 1);
            if io@ != m1 {
                assert(io@[0xBC] == TWCR_STOP_DONE as u8);
                assert(reg_value::<TWCR>(io@) == TWCR_STOP_DONE);
            }
        }
        bus.service(io);
        proof {
            lemma_twi_constants();
            assert(reg_value::<TWCR>(io@) == TWCR_STOP_DONE);
        }
    }
    proof {
        lemma_twi_constants();
        if io@ == m1 {
            assert(reg_value::<TWCR>(io@) & bit_mask(4) != 0);
        }
    }
}

/// The I/O space once a STOP has been requested and carried out.
pub open spec fn stopped(mem: Seq<u8>) -> Seq<u8> {
    hw_post(reg_written::<TWCR>(mem, TWCR_STOP), TWCR_STOP_DONE, 0xF8)
}

/// Writes TWCR to give the bus up without a STOP.
fn release_bus(io: &mut IoMemory)
    requires
        old(io).wf(),
    ensures
        final(io).wf(),
        final(io)@ == reg_written::<TWCR>(old(io)@, TWCR_RELEASE),
{
    proof {
        lemma_twi_constants();
    }
    set_value(io, BitBuilder::<TWCR, Readable, Writable>::new().bitor(TWEN).bitor(TWEA).bitor(TWINT));
}

/// The I/O space after the handler carries out `action`.
pub open spec fn io_after(mem: Seq<u8>, action: TwiAction) -> Seq<u8> {
    match action {
        TwiAction::Transmit(b) => reg_written::<TWCR>(
            reg_written::<TWDR>(mem, b as u16),
            TWCR_REPLY_ACK,
        ),
        TwiAction::Stop => stopped(mem),
        TwiAction::ReleaseBus => reg_written::<TWCR>(mem, TWCR_RELEASE),
        TwiAction::Nack => reg_written::<TWCR>(mem, TWCR_REPLY_NACK),
        TwiAction::Idle => mem,
    }
}

/// The bus events a handler's `action` adds.
pub open spec fn events_after(events: Seq<BusEvent>, action: TwiAction) -> Seq<BusEvent> {
    if action == TwiAction::Stop {
        events.push(BusEvent::Stop)
    } else {
        events
    }
}

fn perform(io: &mut IoMemory, bus: &mut SimBus, action: TwiAction)
    requires
        old(io).wf(),
    ensures
        final(io).wf(),
        final(io)@ == io_after(old(io)@, action),
        final(bus).events@ == events_after(old(bus).events@, action),
        final(bus).same_slave(&*old(bus)),
        final(bus).expecting_address == old(bus).expecting_address,
        final(bus).data_bytes == old(bus).data_bytes,
{
    match action {
        TwiAction::Transmit(b) => {
            TWDR::set_raw_value(io, b);
            send_reply(io, true);
        },
        TwiAction::Stop => stop(io, bus),
        TwiAction::ReleaseBus => release_bus(io),
        TwiAction::Nack => send_reply(io, false),
        TwiAction::Idle => {},
    }
}

/// The bus peripheral's interrupt: answers the status it reports. Where the
/// answer is a STOP, the handler returns (and the foreground sees the state
/// back at `Ready`) only once the STOP is on the bus `bus` and TWSTO reads 0.
pub fn twi_interrupt(mcu: &mut Mcu, bus: &mut SimBus)
    requires
        old(mcu).wf(),
    ensures
        final(mcu).wf(),
        final(mcu).agrees_apart_from_twi(old(mcu)),
        final(bus).same_slave(&*old(bus)),
        final(bus).expecting_address == old(bus).expecting_address,
        final(bus).data_bytes == old(bus).data_bytes,
        ({
            let status = current_status(old(mcu).io@);
            let t = old(mcu).twi;
            let action = action_for(t.address, t.buffer@, status);
            &&& final(mcu).io@ == io_after(old(mcu).io@, action)
            &&& final(bus).events@ == events_after(old(bus).events@, action)
            &&& action == TwiAction::Stop ==> reg_value::<TWCR>(final(mcu).io@) & bit_mask(4) == 0
            &&& final(mcu).twi.buffer@ == pending_after(t.buffer@, status)
            &&& final(mcu).twi.error == error_after(t.error, status)
            &&& final(mcu).twi.state == (if ends_transaction(t.buffer@, status) {
                TwiState::Ready
            } else {
                t.state
            })
            &&& final(mcu).twi.address == t.address
        }),
{
    let status = TWSR::status(&mcu.io);
    let action = mcu.twi.on_status(status);
    perform(&mut mcu.io, bus, action);
    proof {
        lemma_twi_constants();
    }
}

/// What the foreground's last TWCR write asks of the peripheral.
#[derive(Clone, Copy, PartialEq, Eq, Structural, Debug)]
pub enum TwiCommand {
    /// Nothing is asked (the interrupt flag is clear).
    Idle,
    Start,
    Stop,
    /// Give the bus up.
    Release,
    /// Send the data register's byte.
    Transmit,
}

pub open spec fn command_of(v: u16) -> TwiCommand {
    if v & 0x80 == 0 {
        TwiCommand::Idle
    } else if v & 0x20 != 0 {
        TwiCommand::Start
    } else if v & 0x10 != 0 {
        TwiCommand::Stop
    } else if v & 0x01 == 0 {
        TwiCommand::Release
    } else {
        TwiCommand::Transmit
    }
}

/// What a simulated bus observes.
#[derive(Clone, Copy, PartialEq, Eq, Structural, Debug)]
pub enum BusEvent {
    Start,
    Byte(u8),
    Stop,
}

/// A fault that a simulated bus can report instead of an acknowledge.
#[derive(Clone, Copy, PartialEq, Eq, Structural, Debug)]
pub enum BusFault {
    /// Another master wins the bus.
    ArbitrationLost,
    /// An illegal START or STOP is seen.
    BusError,
}

/// A simulated bus: the wire side of the peripheral and one slave device,
/// which acknowledges its address if `acks_address` and then the first
/// `acked_bytes` data bytes of each transaction. With a `fault`, the bus
/// reports it instead of the answer to byte `fault_at` of each transaction
/// (byte 0 being the address byte).
pub struct SimBus {
    pub acks_address: bool,
    pub acked_bytes: usize,
    pub fault: Option<BusFault>,
    pub fault_at: usize,
    /// Everything seen on the wire, oldest first.
    pub events: Vec<BusEvent>,
    /// Whether the next byte is an address byte.
    pub expecting_address: bool,
    /// Data bytes sent since the address byte.
    pub data_bytes: usize,
}

/// Index in its transaction of the next byte the bus sends.
pub open spec fn byte_index(bus: &SimBus) -> int {
    if bus.expecting_address {
        0
    } else {
        bus.data_bytes + 1
    }
}

/// The status the peripheral reports after sending a byte.
pub open spec fn sent_code(bus: &SimBus) -> u8 {
    if bus.fault is Some && byte_index(bus) == bus.fault_at {
        if bus.fault == Some(BusFault::ArbitrationLost) {
            0x38
        } else {
            0x00
        }
    } else if bus.expecting_address {
        if bus.acks_address {
            0x18
        } else {
            0x20
        }
    } else if bus.data_bytes < bus.acked_bytes {
        0x28
    } else {
        0x30
    }
}

/// The I/O space once the peripheral has finished an operation: TWCR holds
/// `twcr`, and the status register's upper bits hold `code`.
pub open spec fn hw_post(mem: Seq<u8>, twcr: u16, code: u8) -> Seq<u8> {
    mem.update(0xBC, twcr as u8).update(0xB9, ((mem[0xB9] & 3) | code) as u8)
}

impl SimBus {
    /// Whether `self` models the same slave and faults as `other`.
    pub open spec fn same_slave(&self, other: &SimBus) -> bool {
        &&& self.acks_address == other.acks_address
        &&& self.acked_bytes == other.acked_bytes
        &&& self.fault == other.fault
        &&& self.fault_at == other.fault_at
    }

    /// A quiet, fault-free bus whose slave behaves as described above.
    pub fn new(acks_address: bool, acked_bytes: usize) -> (r: SimBus)
        ensures
            r.acks_address == acks_address,
            r.acked_bytes == acked_bytes,
            r.fault is None,
            r.fault_at == 0,
            r.events@.len() == 0,
            !r.expecting_address,
            r.data_bytes == 0,
    {
        SimBus {
            acks_address,
            acked_bytes,
            fault: None,
            fault_at: 0,
            events: Vec::new(),
            expecting_address: false,
            data_bytes: 0,
        }
    }

    /// A quiet bus that reports `fault` on byte `fault_at` of each transaction.
    pub fn with_fault(acks_address: bool, acked_bytes: usize, fault: BusFault, fault_at: usize) -> (r:
        SimBus)
        ensures
            r.acks_address == acks_address,
            r.acked_bytes == acked_bytes,
            r.fault == Some(fault),
            r.fault_at == fault_at,
            r.events@.len() == 0,
            !r.expecting_address,
            r.data_bytes == 0,
    {
        SimBus {
            acks_address,
            acked_bytes,
            fault: Some(fault),
            fault_at,
            events: Vec::new(),
            expecting_address: false,
            data_bytes: 0,
        }
    }

    fn finish(io: &mut IoMemory, twcr: u16, code: u8)
        requires
            old(io).wf(),
            twcr < 256,
        ensures
            final(io).wf(),
            final(io)@ == hw_post(old(io)@, twcr, code),
    {
        let s = io.load(0xB9);
        io.store(0xBC, twcr as u8);
        io.store(0xB9, (s & 3) | code);
    }

    /// Carries out what the last TWCR write asked for, as the peripheral
    /// and the slave would; returns whether the peripheral raises its
    /// interrupt.
    pub fn service(&mut self, io: &mut IoMemory) -> (raised: bool)
        requires
            old(io).wf(),
        ensures
            final(io).wf(),
            final(self).same_slave(&*old(self)),
            ({
                let m = old(io)@;
                let v = reg_value::<TWCR>(m);
                match command_of(v) {
                    TwiCommand::Idle => {
                        &&& !raised
                        &&& final(io)@ == m
                        &&& final(self).events@ == old(self).events@
                        &&& final(self).expecting_address == old(self).expecting_address
                        &&& final(self).data_bytes == old(self).data_bytes
                    },
                    TwiCommand::Start => {
                        &&& raised
                        &&& final(io)@ == hw_post(m, v & 0x7F, 0x08)
                        &&& final(self).events@ == old(self).events@.push(BusEvent::Start)
                        &&& final(self).expecting_address
                        &&& final(self).data_bytes == 0
                    },
                    TwiCommand::Stop => {
                        &&& !raised
                        &&& final(io)@ == hw_post(m, v & 0x6F, 0xF8)
                        &&& final(self).events@ == old(self).events@.push(BusEvent::Stop)
                        &&& final(self).expecting_address == old(self).expecting_address
                        &&& final(self).data_bytes == old(self).data_bytes
                    },
                    TwiCommand::Release => {
                        &&& !raised
                        &&& final(io)@ == hw_post(m, v & 0x7F, 0xF8)
                        &&& final(self).events@ == old(self).events@
                        &&& final(self).expecting_address == old(self).expecting_address
                        &&& final(self).data_bytes == old(self).data_bytes
                    },
                    TwiCommand::Transmit => {
                        &&& raised
                        &&& final(io)@ == hw_post(m, v & 0x7F, sent_code(old(self)))
                        &&& final(self).events@ == old(self).events@.push(BusEvent::Byte(m[0xBB]))
                        &&& !final(self).expecting_address
                        &&& final(self).data_bytes == (if old(self).expecting_address {
                            0
                        } else if old(self).data_bytes < usize::MAX {
                            (old(self).data_bytes + 1) as usize
                        } else {
                            old(self).data_bytes
                        })
                    },
                }
            }),
    {
        let v = TWCR::read_bits(io);
        assert(v < 256 ==> (v & 0x7F) < 256 && (v & 0x6F) < 256) by (bit_vector);
        if v & 0x80 == 0 {
            false
        } else if v & 0x20 != 0 {
            self.events.push(BusEvent::Start);
            self.expecting_address = true;
            self.data_bytes = 0;
            Self::finish(io, v & 0x7F, 0x08);
            true
        } else if v & 0x10 != 0 {
            self.events.push(BusEvent::Stop);
            Self::finish(io, v & 0x6F, 0xF8);
            false
        } else if v & 0x01 == 0 {
            Self::finish(io, v & 0x7F, 0xF8);
            false
        } else {
            let b = io.load(0xBB);
            self.events.push(BusEvent::Byte(b));
            let faulted = match self.fault {
                Some(_) => if self.expecting_address {
                    self.fault_at == 0
                } else {
                    self.data_bytes < usize::MAX && self.fault_at == self.data_bytes + 1
                },
                None => false,
            };
            let code: u8 = if faulted {
                if self.expecting_address {
                    self.expecting_address = false;
                    self.data_bytes = 0;
                } else if self.data_bytes < usize::MAX {
                    self.data_bytes = self.data_bytes + 1;
                }
                match self.fault {
                    Some(BusFault::ArbitrationLost) => 0x38,
                    _ => 0x00,
                }
            } else if self.expecting_address {
                self.expecting_address = false;
                self.data_bytes = 0;
                if self.acks_address {
                    0x18
                } else {
                    0x20
                }
            } else {
                let k = self.data_bytes;
                if self.data_bytes < usize::MAX {
                    self.data_bytes = self.data_bytes + 1;
                }
                if k < self.acked_bytes {
                    0x28
                } else {
                    0x30
                }
            };
            Self::finish(io, v & 0x7F, code);
            true
        }
    }
}


/// The events of the bytes `d`.
pub open spec fn byte_events(d: Seq<u8>) -> Seq<BusEvent> {
    d.map_values(|b: u8| BusEvent::Byte(b))
}

/// How many bytes, the address byte included, a fault-free write of `len`
/// payload bytes puts on the bus: up to and including the first byte that is
/// not acknowledged.
pub open spec fn bytes_sent(len: nat, acks_address: bool, acked: nat) -> nat {
    if !acks_address {
        1
    } else if len > acked {
        acked + 2
    } else {
        len + 1
    }
}

/// Whether a fault on byte `fault_at` comes before the write would end anyway.
pub open spec fn faulted(
    len: nat,
    acks_address: bool,
    acked: nat,
    fault: Option<BusFault>,
    fault_at: nat,
) -> bool {
    fault is Some && fault_at < bytes_sent(len, acks_address, acked)
}

/// What the bus observes during a write of `d` to the slave at the shifted
/// `address`: START, then the address byte and the payload bytes, up to and
/// including the first one not acknowledged or met by a fault; then STOP,
/// except after a lost arbitration, when the bus is only given up.
pub open spec fn expected_events(
    address: u8,
    d: Seq<u8>,
    acks_address: bool,
    acked: nat,
    fault: Option<BusFault>,
    fault_at: nat,
) -> Seq<BusEvent> {
    let all = seq![address] + d;
    if faulted(d.len(), acks_address, acked, fault, fault_at) {
        let sent = seq![BusEvent::Start] + byte_events(all.take(fault_at + 1int));
        if fault == Some(BusFault::ArbitrationLost) {
            sent
        } else {
            sent.push(BusEvent::Stop)
        }
    } else {
        (seq![BusEvent::Start] + byte_events(
            all.take(bytes_sent(d.len(), acks_address, acked) as int),
        )).push(BusEvent::Stop)
    }
}

/// The status the handler records by the end of such a write.
pub open spec fn expected_status(
    d: Seq<u8>,
    acks_address: bool,
    acked: nat,
    fault: Option<BusFault>,
    fault_at: nat,
) -> TWSRStatus {
    status_for_len(d.len(), acks_address, acked, fault, fault_at)
}

/// The status that ends a write of `len` payload bytes: it depends on the
/// length of the payload alone.
pub open spec fn status_for_len(
    len: nat,
    acks_address: bool,
    acked: nat,
    fault: Option<BusFault>,
    fault_at: nat,
) -> TWSRStatus {
    if faulted(len, acks_address, acked, fault, fault_at) {
        if fault == Some(BusFault::ArbitrationLost) {
            TWSRStatus::MtArbLost
        } else {
            TWSRStatus::BusError
        }
    } else if !acks_address {
        TWSRStatus::MtSlaNack
    } else if len > acked {
        TWSRStatus::MtDataNack
    } else {
        TWSRStatus::NoInfo
    }
}

/// The error a write reports for the status that ended it.
pub open spec fn error_of(status: TWSRStatus) -> Result<(), TWIError> {
    match status {
        TWSRStatus::NoInfo => Ok(()),
        TWSRStatus::MtDataNack => Err(TWIError::SendDataNACK),
        TWSRStatus::MtSlaNack => Err(TWIError::SendAddressNACK),
        TWSRStatus::MtArbLost => Err(TWIError::ArbitrationLost),
        _ => Err(TWIError::BusError),
    }
}

/// The result of such a write.
pub open spec fn expected_outcome(
    d: Seq<u8>,
    acks_address: bool,
    acked: nat,
    fault: Option<BusFault>,
    fault_at: nat,
) -> Result<(), TWIError> {
    error_of(expected_status(d, acks_address, acked, fault, fault_at))
}

/// The result of a write of `d`, given whether the driver was ready.
pub open spec fn write_outcome(
    ready: bool,
    d: Seq<u8>,
    acks_address: bool,
    acked: nat,
    fault: Option<BusFault>,
    fault_at: nat,
) -> Result<(), TWIError> {
    if !ready {
        Err(TWIError::NotReady)
    } else if d.len() > BUFFER_LEN {
        Err(TWIError::BufferLenError)
    } else {
        expected_outcome(d, acks_address, acked, fault, fault_at)
    }
}

/// What the bus observes during a write of `d`, given whether the driver
/// was ready: nothing at all if the write is refused before it starts.
pub open spec fn write_events(
    ready: bool,
    address: u8,
    d: Seq<u8>,
    acks_address: bool,
    acked: nat,
    fault: Option<BusFault>,
    fault_at: nat,
) -> Seq<BusEvent> {
    if ready && d.len() <= BUFFER_LEN {
        expected_events(address, d, acks_address, acked, fault, fault_at)
    } else {
        Seq::empty()
    }
}

proof fn lemma_byte_events_step(s: Seq<u8>, i: int)
    requires
        0 <= i < s.len(),
    ensures
        byte_events(s.take(i)).push(BusEvent::Byte(s[i])) == byte_events(s.take(i + 1)),
{
    assert(byte_events(s.take(i)).push(BusEvent::Byte(s[i])) =~= byte_events(s.take(i + 1)));
}

/// The I/O space once `TWI::init` has configured the peripheral.
pub open spec fn twi_configured(mem: Seq<u8>) -> Seq<u8> {
    let m1 = reg_written::<DDRC>(mem, reg_value::<DDRC>(mem) & !((0u16 | bit_mask(4)) | bit_mask(5)));
    let m2 = reg_written::<PORTC>(m1, reg_value::<PORTC>(m1) | ((0u16 | bit_mask(4)) | bit_mask(5)));
    let m3 = reg_written::<TWSR>(m2, reg_value::<TWSR>(m2) & !((0u16 | bit_mask(0)) | bit_mask(1)));
    let m4 = reg_written::<TWBR>(m3, TWI_BIT_RATE as u16);
    reg_written::<TWCR>(m4, (0u16 | bit_mask(2)) | bit_mask(6))
}

/// The I/O space once `TWI::release` has shut the peripheral down.
pub open spec fn twi_shut_down(mem: Seq<u8>) -> Seq<u8> {
    let m1 = reg_written::<TWCR>(
        mem,
        reg_value::<TWCR>(mem) & !(((0u16 | bit_mask(2)) | bit_mask(0)) | bit_mask(6)),
    );
    reg_written::<PORTC>(m1, reg_value::<PORTC>(m1) & !((0u16 | bit_mask(4)) | bit_mask(5)))
}

/// The bus driver; at most one is live at a time.
pub struct TWI {
    _token: (),
}

impl TWI {
    /// Sets the bus lines to inputs with pull-ups, a 400 kHz rate, and
    /// enables the peripheral with acknowledges; or fails if a driver is
    /// already live.
    pub fn init(mcu: &mut Mcu) -> (r: Result<TWI, TWIError>)
        requires
            old(mcu).wf(),
        ensures
            final(mcu).wf(),
            old(mcu).twi_live ==> r == Err::<TWI, TWIError>(TWIError::AlreadyInitialized)
                && *final(mcu) == *old(mcu),
            !old(mcu).twi_live ==> {
                &&& r is Ok
                &&& final(mcu).twi_live
                &&& final(mcu).twi.state == TwiState::Ready
                &&& final(mcu).twi.address == old(mcu).twi.address
                &&& final(mcu).twi.error == old(mcu).twi.error
                &&& final(mcu).twi.buffer@ == old(mcu).twi.buffer@
                &&& final(mcu).io@ == twi_configured(old(mcu).io@)
                &&& final(mcu).interrupts_enabled == old(mcu).interrupts_enabled
                &&& final(mcu).ticks == old(mcu).ticks
                &&& final(mcu).clock_live == old(mcu).clock_live
                &&& final(mcu).usart_live == old(mcu).usart_live
                &&& final(mcu).busy_micros == old(mcu).busy_micros
                &&& final(mcu).serial_out == old(mcu).serial_out
            },
    {
        if mcu.twi_live {
            Err(TWIError::AlreadyInitialized)
        } else {
            mcu.twi_live = true;
            mcu.twi.state = TwiState::Ready;
            let io = &mut mcu.io;
            clear_bits(io, BitBuilder::<DDRC, Readable, Writable>::new().bitor(DDRC4).bitor(DDRC5));
            set_bits(io, BitBuilder::<PORTC, Readable, Writable>::new().bitor(PORTC4).bitor(PORTC5));
            clear_bits(io, BitBuilder::<TWSR, Readable, Writable>::new().bitor(TWPS0).bitor(TWPS1));
            TWBR::set_raw_value(io, TWI_BIT_RATE);
            set_value(io, BitBuilder::<TWCR, Readable, Writable>::new().bitor(TWEN).bitor(TWEA));
            Ok(TWI { _token: () })
        }
    }

    /// Sets the 7-bit address of the target of later writes.
    pub fn set_address(&mut self, mcu: &mut Mcu, addr: u8) -> (r: Result<(), TWIError>)
        ensures
            addr > 127 ==> r == Err::<(), TWIError>(TWIError::InvalidAddress)
                && *final(mcu) == *old(mcu),
            addr <= 127 ==> r is Ok && *final(mcu) == (Mcu {
                twi: TwiShared { address: (2 * addr) as u8, ..old(mcu).twi },
                ..*old(mcu)
            }),
    {
        if addr > 127 {
            Err(TWIError::InvalidAddress)
        } else {
            assert(addr <= 127 ==> addr << 1 == 2 * addr) by (bit_vector);
            mcu.twi.address = addr << 1;
            Ok(())
        }
    }

    /// Writes `data` to the target over the simulated bus `bus`, waiting
    /// until the transaction has ended. Fails at once, with no bus activity,
    /// if the driver is not ready or `data` does not fit in the buffer.
    #[verifier::rlimit(100)]
    pub fn write<T: ByteBundle + ?Sized>(&mut self, mcu: &mut Mcu, bus: &mut SimBus, data: &T) -> (r: Result<
        (),
        TWIError,
    >)
        requires
            old(mcu).wf(),
        ensures
            final(mcu).wf(),
            final(mcu).agrees_apart_from_twi(old(mcu)),
            final(mcu).twi.address == old(mcu).twi.address,
            final(bus).same_slave(&*old(bus)),
            r == write_outcome(
                old(mcu).twi.state == TwiState::Ready,
                data.bytes(),
                old(bus).acks_address,
                old(bus).acked_bytes as nat,
                old(bus).fault,
                old(bus).fault_at as nat,
            ),
            final(bus).events@ == old(bus).events@ + write_events(
                old(mcu).twi.state == TwiState::Ready,
                old(mcu).twi.address,
                data.bytes(),
                old(bus).acks_address,
                old(bus).acked_bytes as nat,
                old(bus).fault,
                old(bus).fault_at as nat,
            ),
            old(mcu).twi.state == TwiState::Ready ==> final(mcu).twi.state == TwiState::Ready,
            old(mcu).twi.state != TwiState::Ready ==> r == Err::<(), TWIError>(TWIError::NotReady)
                && *final(mcu) == *old(mcu) && final(bus).events@ == old(bus).events@,
            old(mcu).twi.state == TwiState::Ready && data.bytes().len() > BUFFER_LEN ==> r == Err::<
                (),
                TWIError,
            >(TWIError::BufferLenError) && *final(mcu) == *old(mcu) && final(bus).events@
                == old(bus).events@,
            old(mcu).twi.state == TwiState::Ready && data.bytes().len() <= BUFFER_LEN ==> {
                &&& r == expected_outcome(
                    data.bytes(),
                    old(bus).acks_address,
                    old(bus).acked_bytes as nat,
                    old(bus).fault,
                    old(bus).fault_at as nat,
                )
                &&& final(bus).events@ == old(bus).events@ + expected_events(
                    old(mcu).twi.address,
                    data.bytes(),
                    old(bus).acks_address,
                    old(bus).acked_bytes as nat,
                    old(bus).fault,
                    old(bus).fault_at as nat,
                )
                &&& final(mcu).twi.state == TwiState::Ready
            },
    {
        if mcu.twi.state != TwiState::Ready {
            assert(bus.events@ =~= old(bus).events@ + Seq::<BusEvent>::empty());
            return Err(TWIError::NotReady);
        }
        match mcu.twi.buffer.set(data) {
            Err(e) => {
                assert(bus.events@ =~= old(bus).events@ + Seq::<BusEvent>::empty());
                return Err(e);
            },
            Ok(()) => {},
        }
        mcu.twi.state = TwiState::Transmitting;
        mcu.twi.error = TWSRStatus::NoInfo;
        proof {
            lemma_twi_constants();
        }
        set_value(
            &mut mcu.io,
            BitBuilder::<TWCR, Readable, Writable>::new().bitor(TWINT).bitor(TWEA).bitor(
                TWEN,
            ).bitor(TWIE).bitor(TWSTA),
        );
        let ghost e0 = bus.events@;
        let ghost d = data.bytes();
        let ghost addr = mcu.twi.address;
        let ghost acks = bus.acks_address;
        let ghost acked = bus.acked_bytes as nat;
        let ghost fault = bus.fault;
        let ghost fault_at = bus.fault_at as nat;
        let ghost all = seq![addr] + d;
        let ghost n = bytes_sent(d.len(), acks, acked);
        let ghost f = faulted(d.len(), acks, acked, fault, fault_at);
        let ghost last: int = if f {
            fault_at as int
        } else {
            n - 1
        };
        let ghost mut j: int = 0;
        while mcu.twi.state == TwiState::Transmitting
            invariant
                mcu.wf(),
                mcu.agrees_apart_from_twi(old(mcu)),
                mcu.twi.address == addr,
                bus.same_slave(&*old(bus)),
                d == data.bytes(),
                d.len() <= BUFFER_LEN,
                addr == old(mcu).twi.address,
                acks == old(bus).acks_address,
                acked == old(bus).acked_bytes,
                fault == old(bus).fault,
                fault_at == old(bus).fault_at,
                e0 == old(bus).events@,
                all == seq![addr] + d,
                n == bytes_sent(d.len(), acks, acked),
                f == faulted(d.len(), acks, acked, fault, fault_at),
                last == (if f {
                    fault_at as int
                } else {
                    n - 1
                }),
                mcu.twi.state == TwiState::Transmitting || mcu.twi.state == TwiState::Ready,
                mcu.twi.state == TwiState::Transmitting ==> {
                    &&& mcu.twi.error == TWSRStatus::NoInfo
                    &&& 0 <= j
                    &&& j == 0 ==> {
                        &&& reg_value::<TWCR>(mcu.io@) == TWCR_START
                        &&& bus.events@ == e0
                        &&& mcu.twi.buffer@ == d
                    }
                    &&& j >= 1 ==> {
                        &&& j - 1 <= last
                        &&& reg_value::<TWCR>(mcu.io@) == TWCR_REPLY_ACK
                        &&& mcu.io@[0xBB] == all[j - 1]
                        &&& byte_index(bus) == j - 1
                        &&& bus.events@ == e0 + (seq![BusEvent::Start] + byte_events(
                            all.take(j - 1),
                        ))
                        &&& mcu.twi.buffer@ == d.skip(j - 1)
                    }
                },
                mcu.twi.state == TwiState::Ready ==> {
                    &&& command_of(reg_value::<TWCR>(mcu.io@)) == TwiCommand::Idle || command_of(
                        reg_value::<TWCR>(mcu.io@),
                    ) == TwiCommand::Release
                    &&& bus.events@ == e0 + expected_events(addr, d, acks, acked, fault, fault_at)
                    &&& mcu.twi.error == expected_status(d, acks, acked, fault, fault_at)
                },
            decreases d.len() + 3 - (bus.events@.len() - e0.len()),
        {
            let ghost io0 = mcu.io@;
            let ghost b0 = *bus;
            let raised = bus.service(&mut mcu.io);
            let ghost io1 = mcu.io@;
            let ghost b1 = *bus;
            proof {
                lemma_twi_constants();
                lemma_full_mask(addr);
                if j == 0 {
                    lemma_status_code(io0[0xB9], 0x08);
                    assert(current_status(io1) == TWSRStatus::Start);
                    assert(byte_index(&b1) == 0);
                } else {
                    lemma_status_code(io0[0xB9], sent_code(&b0));
                    assert(current_status(io1) == status_of(sent_code(&b0)));
                    assert(b1.events@ == e0 + (seq![BusEvent::Start] + byte_events(all.take(j))))
                        by {
                        lemma_byte_events_step(all, j - 1);
                        assert(b1.events@ =~= e0 + (seq![BusEvent::Start] + byte_events(
                            all.take(j),
                        )));
                    };
                    assert(byte_index(&b1) == j);
                }
            }
            if raised {
                twi_interrupt(mcu, bus);
            }
            proof {
                if j == 0 {
                    assert(bus.events@ =~= e0 + (seq![BusEvent::Start] + byte_events(all.take(0))));
                    j = 1;
                } else {
                    let i = j - 1;
                    let sent = seq![BusEvent::Start] + byte_events(all.take(i + 1));
                    assert(i < n);
                    assert(f ==> i <= fault_at);
                    if fault is Some && i == fault_at {
                        assert(f);
                        assert(e0 + sent == e0 + (seq![BusEvent::Start] + byte_events(
                            all.take(fault_at + 1int),
                        )));
                        assert((e0 + sent).push(BusEvent::Stop) =~= e0 + sent.push(
                            BusEvent::Stop,
                        ));
                    } else {
                        assert(!f || i + 1 <= last);
                        if mcu.twi.state == TwiState::Transmitting {
                            lemma_full_mask(d[i]);
                            assert(d.skip(i).drop_first() =~= d.skip(i + 1));
                            assert(all[i + 1] == d[i]);
                            j = j + 1;
                        } else {
                            assert(!f);
                            assert(i + 1 == n);
                            assert((e0 + sent).push(BusEvent::Stop) =~= e0 + sent.push(
                                BusEvent::Stop,
                            ));
                        }
                    }
                }
            }
        }
        bus.service(&mut mcu.io);
        match mcu.twi.error {
            TWSRStatus::NoInfo => Ok(()),
            TWSRStatus::MtDataNack => Err(TWIError::SendDataNACK),
            TWSRStatus::MtSlaNack => Err(TWIError::SendAddressNACK),
            TWSRStatus::MtArbLost => Err(TWIError::ArbitrationLost),
            _ => Err(TWIError::BusError),
        }
    }

    /// Shuts the peripheral down and lets a new driver be made.
    pub fn release(self, mcu: &mut Mcu)
        requires
            old(mcu).wf(),
        ensures
            final(mcu).wf(),
            !final(mcu).twi_live,
            final(mcu).io@ == twi_shut_down(old(mcu).io@),
            final(mcu).twi == old(mcu).twi,
            final(mcu).interrupts_enabled == old(mcu).interrupts_enabled,
            final(mcu).ticks == old(mcu).ticks,
            final(mcu).clock_live == old(mcu).clock_live,
            final(mcu).usart_live == old(mcu).usart_live,
            final(mcu).busy_micros == old(mcu).busy_micros,
            final(mcu).serial_out == old(mcu).serial_out,
    {
        mcu.twi_live = false;
        let io = &mut mcu.io;
        clear_bits(io, BitBuilder::<TWCR, Readable, Writable>::new().bitor(TWEN).bitor(TWIE).bitor(TWEA));
        clear_bits(io, BitBuilder::<PORTC, Readable, Writable>::new().bitor(PORTC4).bitor(PORTC5));
    }
}


/// The events of the address byte followed by the first `k` payload bytes.
proof fn lemma_prefix_events(address: u8, d: Seq<u8>, k: int)
    requires
        0 <= k <= d.len(),
    ensures
        byte_events((seq![address] + d).take(k + 1)) == seq![BusEvent::Byte(address)]
            + byte_events(d.take(k)),
{
    assert(byte_events((seq![address] + d).take(k + 1)) =~= seq![BusEvent::Byte(address)]
        + byte_events(d.take(k)));
}

/// Against a fault-free slave that acknowledges every byte, a write of a
/// payload that fits in the buffer succeeds, and the bus sees exactly START,
/// the address byte, each payload byte in order, and STOP.
pub proof fn lemma_write_all_acknowledged(address: u8, d: Seq<u8>, acked: nat)
    requires
        d.len() <= BUFFER_LEN,
        d.len() <= acked,
    ensures
        expected_outcome(d, true, acked, None, 0) == Ok::<(), TWIError>(()),
        expected_events(address, d, true, acked, None, 0) == seq![
            BusEvent::Start,
            BusEvent::Byte(address),
        ] + byte_events(d) + seq![BusEvent::Stop],
{
    lemma_prefix_events(address, d, d.len() as int);
    assert(d.take(d.len() as int) =~= d);
    assert((seq![BusEvent::Start] + (seq![BusEvent::Byte(address)] + byte_events(d))).push(
        BusEvent::Stop,
    ) =~= seq![BusEvent::Start, BusEvent::Byte(address)] + byte_events(d) + seq![BusEvent::Stop]);
}

/// If the slave does not acknowledge its address (and no fault comes first),
/// the write fails with `SendAddressNACK` and the bus sees START, the address
/// byte and STOP: no payload byte at all.
pub proof fn lemma_write_address_refused(address: u8, d: Seq<u8>, acked: nat)
    ensures
        expected_outcome(d, false, acked, None, 0) == Err::<(), TWIError>(
            TWIError::SendAddressNACK,
        ),
        expected_events(address, d, false, acked, None, 0) == seq![
            BusEvent::Start,
            BusEvent::Byte(address),
            BusEvent::Stop,
        ],
{
    lemma_prefix_events(address, d, 0);
    assert(byte_events(d.take(0)) =~= Seq::<BusEvent>::empty());
    assert((seq![BusEvent::Start] + (seq![BusEvent::Byte(address)] + byte_events(d.take(0)))).push(
        BusEvent::Stop,
    ) =~= seq![BusEvent::Start, BusEvent::Byte(address), BusEvent::Stop]);
}

/// If the slave acknowledges its address and the first `k` payload bytes but
/// not byte `k + 1` (and no fault comes first), the write fails with
/// `SendDataNACK`, and exactly the first `k + 1` payload bytes were on the
/// bus before the STOP.
pub proof fn lemma_write_data_refused(address: u8, d: Seq<u8>, k: nat)
    requires
        k < d.len(),
    ensures
        expected_outcome(d, true, k, None, 0) == Err::<(), TWIError>(TWIError::SendDataNACK),
        expected_events(address, d, true, k, None, 0) == seq![
            BusEvent::Start,
            BusEvent::Byte(address),
        ] + byte_events(d.take(k + 1int)) + seq![BusEvent::Stop],
        byte_events(d.take(k + 1int)).len() == k + 1,
{
    lemma_prefix_events(address, d, k + 1int);
    assert((seq![BusEvent::Start] + (seq![BusEvent::Byte(address)] + byte_events(
        d.take(k + 1int),
    ))).push(BusEvent::Stop) =~= seq![BusEvent::Start, BusEvent::Byte(address)] + byte_events(
        d.take(k + 1int),
    ) + seq![BusEvent::Stop]);
}

/// If arbitration is lost on byte `at` of a write, before the write would
/// have ended anyway, the write fails with `ArbitrationLost`; the bus saw
/// START and the first `at + 1` bytes, and no STOP is issued.
pub proof fn lemma_write_arbitration_lost(
    address: u8,
    d: Seq<u8>,
    acks_address: bool,
    acked: nat,
    at: nat,
)
    requires
        at < bytes_sent(d.len(), acks_address, acked),
    ensures
        expected_outcome(d, acks_address, acked, Some(BusFault::ArbitrationLost), at) == Err::<
            (),
            TWIError,
        >(TWIError::ArbitrationLost),
        expected_events(address, d, acks_address, acked, Some(BusFault::ArbitrationLost), at)
            == seq![BusEvent::Start] + byte_events((seq![address] + d).take(at + 1int)),
        !expected_events(
            address,
            d,
            acks_address,
            acked,
            Some(BusFault::ArbitrationLost),
            at,
        ).contains(BusEvent::Stop),
{
    let ev = seq![BusEvent::Start] + byte_events((seq![address] + d).take(at + 1int));
    assert forall|i: int| 0 <= i < ev.len() implies ev[i] != BusEvent::Stop by {
        if i > 0 {
            assert(ev[i] == byte_events((seq![address] + d).take(at + 1int))[i - 1]);
        }
    }
}

/// If a bus error is seen on byte `at` of a write, before the write would
/// have ended anyway, the write fails with `BusError`; the bus saw START,
/// the first `at + 1` bytes, and a STOP.
pub proof fn lemma_write_bus_error(address: u8, d: Seq<u8>, acks_address: bool, acked: nat, at: nat)
    requires
        at < bytes_sent(d.len(), acks_address, acked),
    ensures
        expected_outcome(d, acks_address, acked, Some(BusFault::BusError), at) == Err::<
            (),
            TWIError,
        >(TWIError::BusError),
        expected_events(address, d, acks_address, acked, Some(BusFault::BusError), at) == (seq![
            BusEvent::Start,
        ] + byte_events((seq![address] + d).take(at + 1int))).push(BusEvent::Stop),
{
}

} // verus!
