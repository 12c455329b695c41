//! Typed access to the memory-mapped registers.
//!
//! The I/O space is modelled as a flat array of bytes. A register is a type
//! bound to one address, with a data width and a write mask; its bits are
//! types too, each carrying its read and write capability, so that an
//! operation needing a capability a bit lacks does not type-check.
use vstd::prelude::*;

verus! {

/// Size of the modelled I/O space, in bytes.
pub const IO_SIZE: usize = 256;

/// The bytes of the I/O space.
pub struct IoMemory {
    bytes: Vec<u8>,
}

impl IoMemory {
    pub closed spec fn view(&self) -> Seq<u8> {
        self.bytes@
    }

    pub open spec fn wf(&self) -> bool {
        self@.len() == IO_SIZE
    }

    /// The I/O space after reset: every byte zero.
    pub fn new() -> (r: IoMemory)
        ensures
            r.wf(),
            forall|i: int| 0 <= i < IO_SIZE ==> #[trigger] r@[i] == 0,
    {
        let mut bytes: Vec<u8> = Vec::new();
        let mut i: usize = 0;
        while i < IO_SIZE
            invariant
                i <= IO_SIZE,
                bytes@.len() == i,
                forall|j: int| 0 <= j < i ==> #[trigger] bytes@[j] == 0,
            decreases IO_SIZE - i,
        {
            bytes.push(0);
            i = i + 1;
        }
        IoMemory { bytes }
    }

    /// Reads one byte as the hardware holds it.
    pub fn load(&self, addr: usize) -> (r: u8)
        requires
            self.wf(),
            addr < IO_SIZE,
        ensures
            r == self@[addr as int],
    {
        self.bytes[addr]
    }

    /// Stores one byte as the hardware does, bypassing any write mask.
    pub fn store(&mut self, addr: usize, v: u8)
        requires
            old(self).wf(),
            addr < IO_SIZE,
        ensures
            final(self).wf(),
            final(self)@ == old(self)@.update(addr as int, v),
    {
        self.bytes.set(addr, v);
    }
}

/// One past the largest value of a register `width` bytes wide.
pub open spec fn limit(width: nat) -> nat {
    if width == 1 {
        256
    } else {
        65536
    }
}

/// The value held by the register of `width` bytes at `addr` (low byte first).
pub open spec fn read_word(mem: Seq<u8>, addr: nat, width: nat) -> u16 {
    if width == 1 {
        mem[addr as int] as u16
    } else {
        (mem[addr as int] + 256 * mem[addr + 1int]) as u16
    }
}

/// The I/O space after storing `v` in the register of `width` bytes at `addr`.
pub open spec fn write_word(mem: Seq<u8>, addr: nat, width: nat, v: u16) -> Seq<u8> {
    if width == 1 {
        mem.update(addr as int, v as u8)
    } else {
        mem.update(addr as int, (v % 256) as u8).update(addr + 1int, (v / 256) as u8)
    }
}

/// The data types a register can have: one or two bytes.
pub trait RegisterType: Copy + Sized {
    /// How many bytes of I/O space a value occupies.
    spec fn spec_width() -> nat;

    /// The value, zero-extended to 16 bits.
    spec fn spec_to_u16(self) -> u16;

    proof fn lemma_width()
        ensures
            Self::spec_width() == 1 || Self::spec_width() == 2,
    ;

    proof fn lemma_range(self)
        ensures
            self.spec_to_u16() < limit(Self::spec_width()),
    ;

    fn width() -> (r: usize)
        ensures
            r == Self::spec_width(),
            r == 1 || r == 2,
    ;

    fn to_u16(self) -> (r: u16)
        ensures
            r == self.spec_to_u16(),
            r < limit(Self::spec_width()),
    ;

    fn from_u16(v: u16) -> (r: Self)
        requires
            v < limit(Self::spec_width()),
        ensures
            r.spec_to_u16() == v,
    ;
}

impl RegisterType for u8 {
    open spec fn spec_width() -> nat {
        1
    }

    open spec fn spec_to_u16(self) -> u16 {
        self as u16
    }

    proof fn lemma_width() {
    }

    proof fn lemma_range(self) {
    }

    fn width() -> (r: usize) {
        1
    }

    fn to_u16(self) -> (r: u16) {
        self as u16
    }

    fn from_u16(v: u16) -> (r: u8) {
        v as u8
    }
}

impl RegisterType for u16 {
    open spec fn spec_width() -> nat {
        2
    }

    open spec fn spec_to_u16(self) -> u16 {
        self
    }

    proof fn lemma_width() {
    }

    proof fn lemma_range(self) {
    }

    fn width() -> (r: usize) {
        2
    }

    fn to_u16(self) -> (r: u16) {
        self
    }

    fn from_u16(v: u16) -> (r: u16) {
        v
    }
}

/// A read or write capability, as a type.
pub trait Access {
    /// Whether the capability is held.
    spec fn granted() -> bool;
}

pub struct Readable;

impl Access for Readable {
    open spec fn granted() -> bool {
        true
    }
}

pub struct NotReadable;

impl Access for NotReadable {
    open spec fn granted() -> bool {
        false
    }
}

pub struct Writable;

impl Access for Writable {
    open spec fn granted() -> bool {
        true
    }
}

pub struct NotWritable;

impl Access for NotWritable {
    open spec fn granted() -> bool {
        false
    }
}

/// The capability of a combination: held only if both operands hold it.
pub trait AccessAnd<Rhs: Access>: Access {
    type Output: Access;

    proof fn lemma_and()
        ensures
            Self::Output::granted() == (Self::granted() && Rhs::granted()),
    ;
}

impl AccessAnd<Readable> for Readable {
    type Output = Readable;

    proof fn lemma_and() {
    }
}

impl AccessAnd<NotReadable> for Readable {
    type Output = NotReadable;

    proof fn lemma_and() {
    }
}

impl AccessAnd<NotReadable> for NotReadable {
    type Output = NotReadable;

    proof fn lemma_and() {
    }
}

impl AccessAnd<Readable> for NotReadable {
    type Output = NotReadable;

    proof fn lemma_and() {
    }
}

impl AccessAnd<Writable> for Writable {
    type Output = Writable;

    proof fn lemma_and() {
    }
}

impl AccessAnd<NotWritable> for Writable {
    type Output = NotWritable;

    proof fn lemma_and() {
    }
}

impl AccessAnd<NotWritable> for NotWritable {
    type Output = NotWritable;

    proof fn lemma_and() {
    }
}

impl AccessAnd<Writable> for NotWritable {
    type Output = NotWritable;

    proof fn lemma_and() {
    }
}

/// A bit of a register, with its read and write capability.
pub trait Bit {
    type ReadAccess: Access;
    type WriteAccess: Access;
    type Register: Register;

    spec fn spec_bit_id() -> nat;

    fn bit_id(&self) -> (r: u8)
        ensures
            r == Self::spec_bit_id(),
            r < 8 * <Self::Register as Register>::DataType::spec_width(),
    ;
}

/// The mask of bit `id` in a register value: two to the power `id`.
pub open spec fn bit_mask(id: nat) -> u16 {
    if id == 0 {
        1
    } else if id == 1 {
        2
    } else if id == 2 {
        4
    } else if id == 3 {
        8
    } else if id == 4 {
        16
    } else if id == 5 {
        32
    } else if id == 6 {
        64
    } else if id == 7 {
        128
    } else if id == 8 {
        256
    } else if id == 9 {
        512
    } else if id == 10 {
        1024
    } else if id == 11 {
        2048
    } else if id == 12 {
        4096
    } else if id == 13 {
        8192
    } else if id == 14 {
        16384
    } else {
        32768
    }
}

/// The mask of bit `id`, computed by a shift.
pub fn bit_value(id: u8) -> (r: u16)
    requires
        id < 16,
    ensures
        r == bit_mask(id as nat),
{
    assert(id < 16 ==> (1u16 << id) == (if id == 0 {
        1u16
    } else if id == 1 {
        2u16
    } else if id == 2 {
        4u16
    } else if id == 3 {
        8u16
    } else if id == 4 {
        16u16
    } else if id == 5 {
        32u16
    } else if id == 6 {
        64u16
    } else if id == 7 {
        128u16
    } else if id == 8 {
        256u16
    } else if id == 9 {
        512u16
    } else if id == 10 {
        1024u16
    } else if id == 11 {
        2048u16
    } else if id == 12 {
        4096u16
    } else if id == 13 {
        8192u16
    } else if id == 14 {
        16384u16
    } else {
        32768u16
    })) by (bit_vector);
    1u16 << id
}

proof fn lemma_or_below(a: u16, b: u16, width: nat)
    requires
        width == 1 || width == 2,
        a < limit(width),
        b < limit(width),
    ensures
        (a | b) < limit(width),
{
    if width == 1 {
        assert(a < 256 && b < 256 ==> (a | b) < 256) by (bit_vector);
    }
}

proof fn lemma_and_below(a: u16, b: u16)
    ensures
        (a & b) <= a,
        (a & !b) <= a,
{
    assert((a & b) <= a) by (bit_vector);
    assert((a & !b) <= a) by (bit_vector);
}

/// A set of bits of one register, built up by `|`, whose capabilities are
/// those that every member holds.
pub struct BitBuilder<Reg: Register, R: Access, W: Access> {
    data: u16,
    _p: core::marker::PhantomData<(Reg, R, W)>,
}

impl<Reg: Register, R: Access, W: Access> BitBuilder<Reg, R, W> {
    #[verifier::type_invariant]
    spec fn inv(&self) -> bool {
        self.data < limit(Reg::DataType::spec_width())
    }

    /// The bits in the set, as a 16-bit pattern.
    pub closed spec fn view(&self) -> u16 {
        self.data
    }

    pub fn raw_value(&self) -> (r: Reg::DataType)
        ensures
            r.spec_to_u16() == self@,
    {
        proof {
            use_type_invariant(self);
        }
        Reg::DataType::from_u16(self.data)
    }

    /// Adds a bit of the same register; the capabilities become the more
    /// restrictive of the two.
    pub fn bitor<B>(self, rhs: B) -> (r: BitBuilder<
        Reg,
        <B::ReadAccess as AccessAnd<R>>::Output,
        <B::WriteAccess as AccessAnd<W>>::Output,
    >) where
        B: Bit<Register = Reg>,
        B::ReadAccess: AccessAnd<R>,
        B::WriteAccess: AccessAnd<W>,

        ensures
            r@ == self@ | bit_mask(B::spec_bit_id()),
    {
        proof {
            use_type_invariant(&self);
        }
        let id = rhs.bit_id();
        proof {
            Reg::DataType::lemma_width();
        }
        let b = bit_value(id);
        proof {
            lemma_or_below(self.data, b, Reg::DataType::spec_width());
        }
        BitBuilder { data: self.data | b, _p: core::marker::PhantomData }
    }

    /// Joins two sets of the same register; the capabilities become the more
    /// restrictive of the two.
    pub fn union<R2, W2>(self, rhs: BitBuilder<Reg, R2, W2>) -> (r: BitBuilder<
        Reg,
        <R2 as AccessAnd<R>>::Output,
        <W2 as AccessAnd<W>>::Output,
    >) where
        R2: AccessAnd<R>,
        W2: AccessAnd<W>,

        ensures
            r@ == self@ | rhs@,
    {
        proof {
            use_type_invariant(&self);
            use_type_invariant(&rhs);
            Reg::DataType::lemma_width();
            lemma_or_below(self.data, rhs.data, Reg::DataType::spec_width());
        }
        BitBuilder { data: self.data | rhs.data, _p: core::marker::PhantomData }
    }

    /// Adds a bit whose capabilities equal those of the set.
    pub fn bitor_assign<B>(&mut self, rhs: B) where
        B: Bit<Register = Reg, ReadAccess = R, WriteAccess = W>,

        ensures
            final(self)@ == old(self)@ | bit_mask(B::spec_bit_id()),
    {
        proof {
            use_type_invariant(&*self);
        }
        let id = rhs.bit_id();
        proof {
            Reg::DataType::lemma_width();
        }
        let b = bit_value(id);
        proof {
            lemma_or_below(self.data, b, Reg::DataType::spec_width());
        }
        self.data = self.data | b;
    }
}

impl<Reg: Register> BitBuilder<Reg, Readable, Writable> {
    /// The empty set, with full access; every `|` can only restrict it.
    pub fn new() -> (r: Self)
        ensures
            r@ == 0,
    {
        BitBuilder { data: 0, _p: core::marker::PhantomData }
    }
}

/// What a register's `set_value` family accepts: a single bit or a set of bits.
pub trait SetValueType {
    type Register: Register;
    type WriteAccess: Access;

    spec fn spec_value(&self) -> u16;

    fn value(&self) -> (r: u16)
        ensures
            r == self.spec_value(),
            r < limit(<Self::Register as Register>::DataType::spec_width()),
    ;
}

impl<Reg: Register, R: Access, W: Access> SetValueType for BitBuilder<Reg, R, W> {
    type Register = Reg;
    type WriteAccess = W;

    open spec fn spec_value(&self) -> u16 {
        self@
    }

    fn value(&self) -> (r: u16) {
        proof {
            use_type_invariant(self);
        }
        self.data
    }
}

/// The value of register `R` in the I/O space `mem`.
pub open spec fn reg_value<R: Register>(mem: Seq<u8>) -> u16 {
    read_word(mem, R::spec_addr(), R::DataType::spec_width())
}

/// The I/O space after a masked write of `v` to register `R`.
pub open spec fn reg_written<R: Register>(mem: Seq<u8>, v: u16) -> Seq<u8> {
    write_word(mem, R::spec_addr(), R::DataType::spec_width(), v & R::spec_write_mask())
}

/// A register: a data type, a fixed address and a write mask.
pub trait Register: Sized {
    type DataType: RegisterType;

    spec fn spec_addr() -> nat;

    spec fn spec_write_mask() -> u16;

    /// The register lies inside the I/O space.
    proof fn lemma_layout()
        ensures
            Self::spec_addr() + Self::DataType::spec_width() <= IO_SIZE,
    ;

    fn addr() -> (r: usize)
        ensures
            r == Self::spec_addr(),
            r + Self::DataType::spec_width() <= IO_SIZE,
    ;

    fn write_mask() -> (r: u16)
        ensures
            r == Self::spec_write_mask(),
    ;

    /// Writes `val` ANDed with the write mask.
    fn set_raw_value(io: &mut IoMemory, val: Self::DataType)
        requires
            old(io).wf(),
        ensures
            final(io).wf(),
            final(io)@ == write_word(
                old(io)@,
                Self::spec_addr(),
                Self::DataType::spec_width(),
                val.spec_to_u16() & Self::spec_write_mask(),
            ),
    {
        let v = val.to_u16();
        Self::write_bits(io, v);
    }

    /// Writes the pattern `v`, ANDed with the write mask.
    fn write_bits(io: &mut IoMemory, v: u16)
        requires
            old(io).wf(),
            v < limit(Self::DataType::spec_width()),
        ensures
            final(io).wf(),
            final(io)@ == write_word(
                old(io)@,
                Self::spec_addr(),
                Self::DataType::spec_width(),
                v & Self::spec_write_mask(),
            ),
    {
        let a = Self::addr();
        let m = Self::write_mask();
        let x = v & m;
        if Self::DataType::width() == 1 {
            io.store(a, x as u8);
        } else {
            io.store(a, (x % 256) as u8);
            io.store(a + 1, (x / 256) as u8);
        }
    }

    fn get_value(io: &IoMemory) -> (r: Self::DataType)
        requires
            io.wf(),
        ensures
            r.spec_to_u16() == read_word(io@, Self::spec_addr(), Self::DataType::spec_width()),
    {
        let x = Self::read_bits(io);
        Self::DataType::from_u16(x)
    }

    /// Reads the register as a 16-bit pattern.
    fn read_bits(io: &IoMemory) -> (r: u16)
        requires
            io.wf(),
        ensures
            r == read_word(io@, Self::spec_addr(), Self::DataType::spec_width()),
            r < limit(Self::DataType::spec_width()),
    {
        let a = Self::addr();
        if Self::DataType::width() == 1 {
            io.load(a) as u16
        } else {
            let lo = io.load(a) as u16;
            let hi = io.load(a + 1) as u16;
            lo + 256 * hi
        }
    }

}

/// Writes exactly the bits of `val`, which must all be writable.
pub fn set_value<V>(io: &mut IoMemory, val: V) where
    V: SetValueType<WriteAccess = Writable>,

    requires
        old(io).wf(),
    ensures
        final(io).wf(),
        final(io)@ == reg_written::<V::Register>(old(io)@, val.spec_value()),
{
    let v = val.value();
    <V::Register as Register>::write_bits(io, v);
}

/// Whether a readable bit is set.
pub fn get_bit<B>(io: &IoMemory, bit: B) -> (r: bool) where
    B: Bit<ReadAccess = Readable>,

    requires
        io.wf(),
    ensures
        r == (reg_value::<B::Register>(io@) & bit_mask(B::spec_bit_id()) != 0),
{
    let id = bit.bit_id();
    proof {
        <B::Register as Register>::DataType::lemma_width();
    }
    let x = <B::Register as Register>::read_bits(io);
    x & bit_value(id) != 0
}

/// Sets the given writable bits, keeping the others.
pub fn set_bits<V>(io: &mut IoMemory, bits: V) where
    V: SetValueType<WriteAccess = Writable>,

    requires
        old(io).wf(),
    ensures
        final(io).wf(),
        final(io)@ == reg_written::<V::Register>(
            old(io)@,
            reg_value::<V::Register>(old(io)@) | bits.spec_value(),
        ),
{
    let x = <V::Register as Register>::read_bits(io);
    let b = bits.value();
    proof {
        <V::Register as Register>::DataType::lemma_width();
        lemma_or_below(x, b, <V::Register as Register>::DataType::spec_width());
    }
    <V::Register as Register>::write_bits(io, x | b);
}

/// Clears the given writable bits, keeping the others.
pub fn clear_bits<V>(io: &mut IoMemory, bits: V) where
    V: SetValueType<WriteAccess = Writable>,

    requires
        old(io).wf(),
    ensures
        final(io).wf(),
        final(io)@ == reg_written::<V::Register>(
            old(io)@,
            reg_value::<V::Register>(old(io)@) & !bits.spec_value(),
        ),
{
    let x = <V::Register as Register>::read_bits(io);
    let b = bits.value();
    proof {
        lemma_and_below(x, b);
    }
    <V::Register as Register>::write_bits(io, x & !b);
}

/// Replaces the bits under `mask` with those of `new_val`.
pub fn replace_bits<Reg: Register>(
    io: &mut IoMemory,
    mask: BitBuilder<Reg, Readable, Writable>,
    new_val: BitBuilder<Reg, Readable, Writable>,
)
    requires
        old(io).wf(),
    ensures
        final(io).wf(),
        final(io)@ == reg_written::<Reg>(
            old(io)@,
            (reg_value::<Reg>(old(io)@) & !mask@) | (new_val@ & mask@),
        ),
{
    let x = <Reg as Register>::read_bits(io);
    let m = mask.value();
    let n = new_val.value();
    let kept = x & !m;
    let put = n & m;
    proof {
        lemma_and_below(x, m);
        lemma_and_below(n, m);
        <Reg as Register>::DataType::lemma_width();
        lemma_or_below(kept, put, <Reg as Register>::DataType::spec_width());
    }
    <Reg as Register>::write_bits(io, kept | put);
}

/// A second write to a register replaces the first.
pub proof fn lemma_overwrite<R: Register>(mem: Seq<u8>, a: u16, b: u16)
    requires
        mem.len() == IO_SIZE,
    ensures
        reg_written::<R>(reg_written::<R>(mem, a), b) == reg_written::<R>(mem, b),
{
    R::lemma_layout();
    R::DataType::lemma_width();
    assert(reg_written::<R>(reg_written::<R>(mem, a), b) =~= reg_written::<R>(mem, b));
}

/// A masked write followed by a read gives back exactly the written value
/// ANDed with the register's write mask, whatever the register held before.
pub proof fn lemma_write_then_read<R: Register>(mem: Seq<u8>, v: R::DataType)
    requires
        mem.len() == IO_SIZE,
    ensures
        reg_value::<R>(reg_written::<R>(mem, v.spec_to_u16())) == v.spec_to_u16()
            & R::spec_write_mask(),
{
    R::lemma_layout();
    R::DataType::lemma_width();
    v.lemma_range();
    let v = v.spec_to_u16();
    let m = R::spec_write_mask();
    lemma_and_below(v, m);
    let x = v & m;
    if R::DataType::spec_width() != 1 {
        assert(x % 256 + 256 * (x / 256) == x);
    }
}

} // verus!
