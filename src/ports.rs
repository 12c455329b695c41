//! The three 8-pin ports, each driven through its data, direction and
//! input registers, with per-pin configure, drive and read operations.
use vstd::prelude::*;
use crate::register::{
    Bit, IoMemory, NotWritable, Readable, Register, RegisterType, SetValueType, Writable,
    bit_mask, bit_value, reg_value, reg_written,
};

verus! {

/// Port B Data Register.
pub struct PORTB;

impl Register for PORTB {
    type DataType = u8;

    open spec fn spec_addr() -> nat {
        0x25
    }

    open spec fn spec_write_mask() -> u16 {
        0xFF
    }

    fn addr() -> (r: usize) {
        proof {
            assert(<u8 as RegisterType>::spec_width() == 1);
        }
        0x25
    }

    fn write_mask() -> (r: u16) {
        0xFF
    }

    proof fn lemma_layout() {
        assert(<u8 as RegisterType>::spec_width() == 1);
    }
}

/// Port B Data Direction Register.
pub struct DDRB;

impl Register for DDRB {
    type DataType = u8;

    open spec fn spec_addr() -> nat {
        0x24
    }

    open spec fn spec_write_mask() -> u16 {
        0xFF
    }

    fn addr() -> (r: usize) {
        proof {
            assert(<u8 as RegisterType>::spec_width() == 1);
        }
        0x24
    }

    fn write_mask() -> (r: u16) {
        0xFF
    }

    proof fn lemma_layout() {
        assert(<u8 as RegisterType>::spec_width() == 1);
    }
}

/// Port B Input Pins Register.
pub struct PINB;

impl Register for PINB {
    type DataType = u8;

    open spec fn spec_addr() -> nat {
        0x23
    }

    open spec fn spec_write_mask() -> u16 {
        0xFF
    }

    fn addr() -> (r: usize) {
        proof {
            assert(<u8 as RegisterType>::spec_width() == 1);
        }
        0x23
    }

    fn write_mask() -> (r: u16) {
        0xFF
    }

    proof fn lemma_layout() {
        assert(<u8 as RegisterType>::spec_width() == 1);
    }
}

/// Port C Data Register.
pub struct PORTC;

impl Register for PORTC {
    type DataType = u8;

    open spec fn spec_addr() -> nat {
        0x28
    }

    open spec fn spec_write_mask() -> u16 {
        0x7F
    }

    fn addr() -> (r: usize) {
        proof {
            assert(<u8 as RegisterType>::spec_width() == 1);
        }
        0x28
    }

    fn write_mask() -> (r: u16) {
        0x7F
    }

    proof fn lemma_layout() {
        assert(<u8 as RegisterType>::spec_width() == 1);
    }
}

/// Port C data bit 4 (SDA pull-up).
#[derive(Clone, Copy)]
pub struct PORTC4;

impl Bit for PORTC4 {
    type ReadAccess = Readable;
    type WriteAccess = Writable;
    type Register = PORTC;

    open spec fn spec_bit_id() -> nat {
        4
    }

    fn bit_id(&self) -> (r: u8) {
        proof {
            assert(<u8 as RegisterType>::spec_width() == 1);
        }
        4
    }
}

impl SetValueType for PORTC4 {
    type Register = PORTC;
    type WriteAccess = Writable;

    open spec fn spec_value(&self) -> u16 {
        bit_mask(4)
    }

    fn value(&self) -> (r: u16) {
        proof {
            assert(<u8 as RegisterType>::spec_width() == 1);
        }
        bit_value(4)
    }
}

/// Port C data bit 5 (SCL pull-up).
#[derive(Clone, Copy)]
pub struct PORTC5;

impl Bit for PORTC5 {
    type ReadAccess = Readable;
    type WriteAccess = Writable;
    type Register = PORTC;

    open spec fn spec_bit_id() -> nat {
        5
    }

    fn bit_id(&self) -> (r: u8) {
        proof {
            assert(<u8 as RegisterType>::spec_width() == 1);
        }
        5
    }
}

impl SetValueType for PORTC5 {
    type Register = PORTC;
    type WriteAccess = Writable;

    open spec fn spec_value(&self) -> u16 {
        bit_mask(5)
    }

    fn value(&self) -> (r: u16) {
        proof {
            assert(<u8 as RegisterType>::spec_width() == 1);
        }
        bit_value(5)
    }
}

/// Port C Data Direction Register.
pub struct DDRC;

impl Register for DDRC {
    type DataType = u8;

    open spec fn spec_addr() -> nat {
        0x27
    }

    open spec fn spec_write_mask() -> u16 {
        0x7F
    }

    fn addr() -> (r: usize) {
        proof {
            assert(<u8 as RegisterType>::spec_width() == 1);
        }
        0x27
    }

    fn write_mask() -> (r: u16) {
        0x7F
    }

    proof fn lemma_layout() {
        assert(<u8 as RegisterType>::spec_width() == 1);
    }
}

/// Port C direction bit 4 (SDA).
#[derive(Clone, Copy)]
pub struct DDRC4;

impl Bit for DDRC4 {
    type ReadAccess = Readable;
    type WriteAccess = Writable;
    type Register = DDRC;

    open spec fn spec_bit_id() -> nat {
        4
    }

    fn bit_id(&self) -> (r: u8) {
        proof {
            assert(<u8 as RegisterType>::spec_width() == 1);
        }
        4
    }
}

impl SetValueType for DDRC4 {
    type Register = DDRC;
    type WriteAccess = Writable;

    open spec fn spec_value(&self) -> u16 {
        bit_mask(4)
    }

    fn value(&self) -> (r: u16) {
        proof {
            assert(<u8 as RegisterType>::spec_width() == 1);
        }
        bit_value(4)
    }
}

/// Port C direction bit 5 (SCL).
#[derive(Clone, Copy)]
pub struct DDRC5;

impl Bit for DDRC5 {
    type ReadAccess = Readable;
    type WriteAccess = Writable;
    type Register = DDRC;

    open spec fn spec_bit_id() -> nat {
        5
    }

    fn bit_id(&self) -> (r: u8) {
        proof {
            assert(<u8 as RegisterType>::spec_width() == 1);
        }
        5
    }
}

impl SetValueType for DDRC5 {
    type Register = DDRC;
    type WriteAccess = Writable;

    open spec fn spec_value(&self) -> u16 {
        bit_mask(5)
    }

    fn value(&self) -> (r: u16) {
        proof {
            assert(<u8 as RegisterType>::spec_width() == 1);
        }
        bit_value(5)
    }
}

/// Port C Input Pins Register.
pub struct PINC;

impl Register for PINC {
    type DataType = u8;

    open spec fn spec_addr() -> nat {
        0x26
    }

    open spec fn spec_write_mask() -> u16 {
        0x7F
    }

    fn addr() -> (r: usize) {
        proof {
            assert(<u8 as RegisterType>::spec_width() == 1);
        }
        0x26
    }

    fn write_mask() -> (r: u16) {
        0x7F
    }

    proof fn lemma_layout() {
        assert(<u8 as RegisterType>::spec_width() == 1);
    }
}

/// Port D Data Register.
pub struct PORTD;

impl Register for PORTD {
    type DataType = u8;

    open spec fn spec_addr() -> nat {
        0x2b
    }

    open spec fn spec_write_mask() -> u16 {
        0xFF
    }

    fn addr() -> (r: usize) {
        proof {
            assert(<u8 as RegisterType>::spec_width() == 1);
        }
        0x2b
    }

    fn write_mask() -> (r: u16) {
        0xFF
    }

    proof fn lemma_layout() {
        assert(<u8 as RegisterType>::spec_width() == 1);
    }
}

/// Port D Data Direction Register.
pub struct DDRD;

impl Register for DDRD {
    type DataType = u8;

    open spec fn spec_addr() -> nat {
        0x2a
    }

    open spec fn spec_write_mask() -> u16 {
        0xFF
    }

    fn addr() -> (r: usize) {
        proof {
            assert(<u8 as RegisterType>::spec_width() == 1);
        }
        0x2a
    }

    fn write_mask() -> (r: u16) {
        0xFF
    }

    proof fn lemma_layout() {
        assert(<u8 as RegisterType>::spec_width() == 1);
    }
}

/// Port D Input Pins Register.
pub struct PIND;

impl Register for PIND {
    type DataType = u8;

    open spec fn spec_addr() -> nat {
        0x29
    }

    open spec fn spec_write_mask() -> u16 {
        0xFF
    }

    fn addr() -> (r: usize) {
        proof {
            assert(<u8 as RegisterType>::spec_width() == 1);
        }
        0x29
    }

    fn write_mask() -> (r: u16) {
        0xFF
    }

    proof fn lemma_layout() {
        assert(<u8 as RegisterType>::spec_width() == 1);
    }
}

#[derive(Clone, Copy, PartialEq, Eq, Structural, Debug)]
pub enum PinMode {
    Output,
    Input,
    InputPullup,
}

/// A pin of a port, by its bit index in the port's registers.
pub trait PortBit {
    spec fn spec_bit(&self) -> nat;

    fn bit(&self) -> (r: u8)
        ensures
            r == self.spec_bit(),
            r < 8,
    ;
}

#[derive(Clone, Copy, PartialEq, Eq, Structural, Debug)]
pub enum PortBPins {
    PB0,
    PB1,
    PB2,
    PB3,
    PB4,
    PB5,
    PB6,
    PB7,
}

impl PortBit for PortBPins {
    open spec fn spec_bit(&self) -> nat {
        match self {
            PortBPins::PB0 => 0,
            PortBPins::PB1 => 1,
            PortBPins::PB2 => 2,
            PortBPins::PB3 => 3,
            PortBPins::PB4 => 4,
            PortBPins::PB5 => 5,
            PortBPins::PB6 => 6,
            PortBPins::PB7 => 7,
        }
    }

    fn bit(&self) -> (r: u8) {
        match self {
            PortBPins::PB0 => 0,
            PortBPins::PB1 => 1,
            PortBPins::PB2 => 2,
            PortBPins::PB3 => 3,
            PortBPins::PB4 => 4,
            PortBPins::PB5 => 5,
            PortBPins::PB6 => 6,
            PortBPins::PB7 => 7,
        }
    }
}

#[derive(Clone, Copy, PartialEq, Eq, Structural, Debug)]
pub enum PortCPins {
    PC0,
    PC1,
    PC2,
    PC3,
    PC4,
    PC5,
    PC6,
}

impl PortBit for PortCPins {
    open spec fn spec_bit(&self) -> nat {
        match self {
            PortCPins::PC0 => 0,
            PortCPins::PC1 => 1,
            PortCPins::PC2 => 2,
            PortCPins::PC3 => 3,
            PortCPins::PC4 => 4,
            PortCPins::PC5 => 5,
            PortCPins::PC6 => 6,
        }
    }

    fn bit(&self) -> (r: u8) {
        match self {
            PortCPins::PC0 => 0,
            PortCPins::PC1 => 1,
            PortCPins::PC2 => 2,
            PortCPins::PC3 => 3,
            PortCPins::PC4 => 4,
            PortCPins::PC5 => 5,
            PortCPins::PC6 => 6,
        }
    }
}

#[derive(Clone, Copy, PartialEq, Eq, Structural, Debug)]
pub enum PortDPins {
    PD0,
    PD1,
    PD2,
    PD3,
    PD4,
    PD5,
    PD6,
    PD7,
}

impl PortBit for PortDPins {
    open spec fn spec_bit(&self) -> nat {
        match self {
            PortDPins::PD0 => 0,
            PortDPins::PD1 => 1,
            PortDPins::PD2 => 2,
            PortDPins::PD3 => 3,
            PortDPins::PD4 => 4,
            PortDPins::PD5 => 5,
            PortDPins::PD6 => 6,
            PortDPins::PD7 => 7,
        }
    }

    fn bit(&self) -> (r: u8) {
        match self {
            PortDPins::PD0 => 0,
            PortDPins::PD1 => 1,
            PortDPins::PD2 => 2,
            PortDPins::PD3 => 3,
            PortDPins::PD4 => 4,
            PortDPins::PD5 => 5,
            PortDPins::PD6 => 6,
            PortDPins::PD7 => 7,
        }
    }
}

/// Sets one bit of an 8-bit register, keeping the others.
fn set_reg_bit<R: Register<DataType = u8>>(io: &mut IoMemory, bit: u8)
    requires
        old(io).wf(),
        bit < 8,
    ensures
        final(io).wf(),
        final(io)@ == reg_written::<R>(old(io)@, reg_value::<R>(old(io)@) | bit_mask(bit as nat)),
{
    proof {
        assert(<u8 as RegisterType>::spec_width() == 1);
    }
    let v = R::read_bits(io);
    let b = bit_value(bit);
    assert(v < 256 && b < 256 ==> (v | b) < 256) by (bit_vector);
    R::write_bits(io, v | b);
}

/// Clears one bit of an 8-bit register, keeping the others.
fn clear_reg_bit<R: Register<DataType = u8>>(io: &mut IoMemory, bit: u8)
    requires
        old(io).wf(),
        bit < 8,
    ensures
        final(io).wf(),
        final(io)@ == reg_written::<R>(old(io)@, reg_value::<R>(old(io)@) & !bit_mask(bit as nat)),
{
    proof {
        assert(<u8 as RegisterType>::spec_width() == 1);
    }
    let v = R::read_bits(io);
    let b = bit_value(bit);
    assert((v & !b) <= v) by (bit_vector);
    R::write_bits(io, v & !b);
}

/// Whether one bit of an 8-bit register is set.
fn get_reg_bit<R: Register<DataType = u8>>(io: &IoMemory, bit: u8) -> (r: bool)
    requires
        io.wf(),
        bit < 8,
    ensures
        r == (reg_value::<R>(io@) & bit_mask(bit as nat) != 0),
{
    let v = R::read_bits(io);
    v & bit_value(bit) != 0
}

/// Whether pin `bit` reads high in the I/O space `mem`.
pub open spec fn pin_high<R: Register>(mem: Seq<u8>, bit: nat) -> bool {
    reg_value::<R>(mem) & bit_mask(bit) != 0
}

/// The I/O space after setting bit `bit` of register `R`.
pub open spec fn with_bit_set<R: Register>(mem: Seq<u8>, bit: nat) -> Seq<u8> {
    reg_written::<R>(mem, reg_value::<R>(mem) | bit_mask(bit))
}

/// The I/O space after clearing bit `bit` of register `R`.
pub open spec fn with_bit_cleared<R: Register>(mem: Seq<u8>, bit: nat) -> Seq<u8> {
    reg_written::<R>(mem, reg_value::<R>(mem) & !bit_mask(bit))
}

/// The I/O space after configuring pin `bit` of a port in `mode`.
pub open spec fn configured<DDR: Register, PORT: Register>(
    mem: Seq<u8>,
    bit: nat,
    mode: PinMode,
) -> Seq<u8> {
    match mode {
        PinMode::Output => with_bit_set::<DDR>(mem, bit),
        PinMode::Input => with_bit_cleared::<PORT>(with_bit_cleared::<DDR>(mem, bit), bit),
        PinMode::InputPullup => with_bit_set::<PORT>(with_bit_cleared::<DDR>(mem, bit), bit),
    }
}

/// A port: its pins and its data, direction and input registers.
pub trait Port {
    type ValidPins: PortBit + Copy;
    type PORT: Register<DataType = u8>;
    type DDR: Register<DataType = u8>;
    type PIN: Register<DataType = u8>;

    /// Configures a pin: an output (leaving its driven level as it was), an
    /// input, or an input with the internal pull-up enabled.
    fn set_pin_mode(io: &mut IoMemory, pin: Self::ValidPins, mode: PinMode)
        requires
            old(io).wf(),
        ensures
            final(io).wf(),
            final(io)@ == configured::<Self::DDR, Self::PORT>(old(io)@, pin.spec_bit(), mode),
    {
        let bit = pin.bit();
        match mode {
            PinMode::Output => {
                set_reg_bit::<Self::DDR>(io, bit);
            },
            PinMode::Input => {
                clear_reg_bit::<Self::DDR>(io, bit);
                clear_reg_bit::<Self::PORT>(io, bit);
            },
            PinMode::InputPullup => {
                clear_reg_bit::<Self::DDR>(io, bit);
                set_reg_bit::<Self::PORT>(io, bit);
            },
        }
    }

    /// Drives an output pin high, or enables an input pin's pull-up.
    fn set_port_high(io: &mut IoMemory, pin: Self::ValidPins)
        requires
            old(io).wf(),
        ensures
            final(io).wf(),
            final(io)@ == with_bit_set::<Self::PORT>(old(io)@, pin.spec_bit()),
    {
        set_reg_bit::<Self::PORT>(io, pin.bit());
    }

    /// Drives an output pin low, or disables an input pin's pull-up.
    fn set_port_low(io: &mut IoMemory, pin: Self::ValidPins)
        requires
            old(io).wf(),
        ensures
            final(io).wf(),
            final(io)@ == with_bit_cleared::<Self::PORT>(old(io)@, pin.spec_bit()),
    {
        clear_reg_bit::<Self::PORT>(io, pin.bit());
    }

    /// Writes a one to the pin's input-register bit, which the hardware
    /// takes as a request to toggle the data bit.
    fn set_pin_toggle(io: &mut IoMemory, pin: Self::ValidPins)
        requires
            old(io).wf(),
        ensures
            final(io).wf(),
            final(io)@ == with_bit_set::<Self::PIN>(old(io)@, pin.spec_bit()),
    {
        set_reg_bit::<Self::PIN>(io, pin.bit());
    }

    /// The level the pin reads at.
    fn get_pin_state(io: &IoMemory, pin: Self::ValidPins) -> (r: bool)
        requires
            io.wf(),
        ensures
            r == pin_high::<Self::PIN>(io@, pin.spec_bit()),
    {
        get_reg_bit::<Self::PIN>(io, pin.bit())
    }
}

pub struct PortB;

impl Port for PortB {
    type ValidPins = PortBPins;
    type PORT = PORTB;
    type DDR = DDRB;
    type PIN = PINB;
}

pub struct PortC;

impl Port for PortC {
    type ValidPins = PortCPins;
    type PORT = PORTC;
    type DDR = DDRC;
    type PIN = PINC;
}

pub struct PortD;

impl Port for PortD {
    type ValidPins = PortDPins;
    type PORT = PORTD;
    type DDR = DDRD;
    type PIN = PIND;
}

} // verus!
