//! Command sequences for the SSD1306 monochrome display controller, sent
//! over the two-wire bus. Each bus write starts with a control byte: 0x00
//! for a run of commands, 0x40 for pixel data.
use vstd::prelude::*;
use crate::hal::Mcu;
use crate::progmem::{ByteBundle, PGMSlice};
use crate::twi::{
    BUFFER_LEN, BusEvent, BusFault, SimBus, TWI, TWIError, TwiState, expected_events, expected_outcome,
    write_events, write_outcome,
};

verus! {

pub const WIDTH: u8 = 128;

pub const HEIGHT: u8 = 64;

pub const SSD1306_COMMAND: u8 = 0x00;

pub const SSD1306_DATA: u8 = 0x40;

pub const SSD1306_MEMORYMODE: u8 = 0x20;

pub const SSD1306_COLUMNADDR: u8 = 0x21;

pub const SSD1306_PAGEADDR: u8 = 0x22;

pub const SSD1306_CHARGEPUMP: u8 = 0x8D;

/// Segment remap with column 127 mapped to segment 0: left-to-right.
pub const SSD1306_SEGREMAP_FLIPPED: u8 = 0xA1;

pub const SSD1306_DISPLAYOFF: u8 = 0xAE;

pub const SSD1306_DISPLAYON: u8 = 0xAF;

pub const SSD1306_COMSCANDEC: u8 = 0xC8;

pub const SSD1306_SETPRECHARGE: u8 = 0xD9;

pub const SSD1306_SETVCOMDETECT: u8 = 0xDB;

/// The power-up sequence: display off, charge pump on, horizontal
/// addressing, flipped segment and COM scan, precharge, VCOM level, on.
pub open spec fn init_sequence() -> Seq<u8> {
    seq![0x00u8, 0xAE, 0x8D, 0x14, 0x20, 0x00, 0xA1, 0xC8, 0x00, 0xD9, 0xF1, 0xDB, 0x40, 0xAF]
}

/// Commands that select the whole screen: pages 0 to 7, columns 0 to 127.
pub open spec fn full_screen_window() -> Seq<u8> {
    seq![0x00u8, 0x22, 0x00, 0x07, 0x21, 0x00, 0x7F]
}

/// Commands that select the 8-by-8 cell of column `x`, page `y`.
pub open spec fn cell_window(x: u8, y: u8) -> Seq<u8> {
    seq![0x00u8, 0x22, y, y, 0x21, (x * 8) as u8, (x * 8 + 7) as u8]
}

/// One buffer-load of blank pixels.
pub open spec fn blank_run() -> Seq<u8> {
    seq![0x40u8].add(Seq::new(31, |_i: int| 0u8))
}

/// `s` repeated `n` times.
pub open spec fn repeat(s: Seq<BusEvent>, n: nat) -> Seq<BusEvent>
    decreases n,
{
    if n == 0 {
        Seq::empty()
    } else {
        repeat(s, (n - 1) as nat) + s
    }
}

/// The result and the bus events of writing `rest` one buffer-load at a
/// time to an acknowledging-as-configured slave, stopping at the first
/// failure.
pub open spec fn chunked_writes(
    address: u8,
    rest: Seq<u8>,
    acks: bool,
    acked: nat,
    fault: Option<BusFault>,
    fault_at: nat,
) -> (Result<
    (),
    TWIError,
>, Seq<BusEvent>)
    decreases rest.len(),
{
    if rest.len() == 0 {
        (Ok(()), Seq::empty())
    } else {
        let n = if rest.len() < BUFFER_LEN {
            rest.len() as int
        } else {
            BUFFER_LEN as int
        };
        let chunk = rest.take(n);
        let o = expected_outcome(chunk, acks, acked, fault, fault_at);
        let e = expected_events(address, chunk, acks, acked, fault, fault_at);
        if o is Err {
            (o, e)
        } else {
            let tail = chunked_writes(address, rest.skip(n), acks, acked, fault, fault_at);
            (tail.0, e + tail.1)
        }
    }
}

/// Whether `r` and `o` agree on success, and on the error if any.
pub open spec fn same_outcome<T>(r: Result<T, TWIError>, o: Result<(), TWIError>) -> bool {
    match (r, o) {
        (Ok(_), Ok(_)) => true,
        (Err(a), Err(b)) => a == b,
        _ => false,
    }
}

/// What a sequence of two writes `a` then `b` gives: `b` is sent only if `a`
/// succeeded.
pub open spec fn then_outcome(a: Result<(), TWIError>, b: Result<(), TWIError>) -> Result<(), TWIError> {
    if a is Err {
        a
    } else {
        b
    }
}

/// An initialised display.
pub struct Display {
    _token: (),
}

impl Display {
    /// Sends the power-up sequence.
    pub fn init(twi: &mut TWI, mcu: &mut Mcu, bus: &mut SimBus) -> (r: Result<Display, TWIError>)
        requires
            old(mcu).wf(),
        ensures
            final(mcu).wf(),
            final(mcu).agrees_apart_from_twi(old(mcu)),
            final(mcu).twi.address == old(mcu).twi.address,
            final(bus).same_slave(&*old(bus)),
            old(mcu).twi.state == TwiState::Ready ==> final(mcu).twi.state == TwiState::Ready,
            same_outcome(
                r,
                write_outcome(
                    old(mcu).twi.state == TwiState::Ready,
                    init_sequence(),
                    old(bus).acks_address,
                    old(bus).acked_bytes as nat,
                    old(bus).fault,
                    old(bus).fault_at as nat,
                ),
            ),
            final(bus).events@ == old(bus).events@ + write_events(
                old(mcu).twi.state == TwiState::Ready,
                old(mcu).twi.address,
                init_sequence(),
                old(bus).acks_address,
                old(bus).acked_bytes as nat,
                old(bus).fault,
                old(bus).fault_at as nat,
            ),
    {
        let init: [u8; 14] = [
            SSD1306_COMMAND,
            SSD1306_DISPLAYOFF,
            SSD1306_CHARGEPUMP,
            0x14,
            SSD1306_MEMORYMODE,
            0x00,
            SSD1306_SEGREMAP_FLIPPED,
            SSD1306_COMSCANDEC,
            SSD1306_COMMAND,
            SSD1306_SETPRECHARGE,
            0xF1,
            SSD1306_SETVCOMDETECT,
            0x40,
            SSD1306_DISPLAYON,
        ];
        assert(init@ =~= init_sequence());
        match twi.write(mcu, bus, init.as_slice()) {
            Ok(()) => Ok(Display { _token: () }),
            Err(e) => Err(e),
        }
    }

    /// Blanks the whole screen: selects it, then sends 128 buffer-loads of
    /// zero pixels, stopping at the first failed write.
    pub fn clear_display(&mut self, twi: &mut TWI, mcu: &mut Mcu, bus: &mut SimBus) -> (r: Result<
        (),
        TWIError,
    >)
        requires
            old(mcu).wf(),
        ensures
            final(mcu).wf(),
            final(mcu).agrees_apart_from_twi(old(mcu)),
            final(mcu).twi.address == old(mcu).twi.address,
            final(bus).same_slave(&*old(bus)),
            old(mcu).twi.state == TwiState::Ready ==> final(mcu).twi.state == TwiState::Ready,
            ({
                let ready = old(mcu).twi.state == TwiState::Ready;
                let acks = old(bus).acks_address;
                let acked = old(bus).acked_bytes as nat;
                let fault = old(bus).fault;
                let fault_at = old(bus).fault_at as nat;
                let addr = old(mcu).twi.address;
                let o1 = write_outcome(ready, full_screen_window(), acks, acked, fault, fault_at);
                let e1 = write_events(ready, addr, full_screen_window(), acks, acked, fault, fault_at);
                let o2 = expected_outcome(blank_run(), acks, acked, fault, fault_at);
                let e2 = expected_events(addr, blank_run(), acks, acked, fault, fault_at);
                &&& r == then_outcome(o1, o2)
                &&& o1 is Err ==> final(bus).events@ == old(bus).events@ + e1
                &&& o1 is Ok && o2 is Err ==> final(bus).events@ == old(bus).events@ + e1 + e2
                &&& o1 is Ok && o2 is Ok ==> final(bus).events@ == old(bus).events@ + e1 + repeat(
                    e2,
                    128,
                )
            }),
    {
        let commands: [u8; 7] = [
            SSD1306_COMMAND,
            SSD1306_PAGEADDR,
            0x00,
            0x07,
            SSD1306_COLUMNADDR,
            0x00,
            WIDTH - 1,
        ];
        assert(commands@ =~= full_screen_window());
        match twi.write(mcu, bus, commands.as_slice()) {
            Ok(()) => {},
            Err(e) => {
                return Err(e);
            },
        }
        let ghost e1 = bus.events@;
        let mut buf: [u8; 32] = [0u8; 32];
        buf[0] = SSD1306_DATA;
        assert(buf@ =~= blank_run());
        assert(blank_run().len() == 32);
        let mut i: usize = 0;
        while i < 128
            invariant
                i <= 128,
                mcu.wf(),
                mcu.agrees_apart_from_twi(old(mcu)),
                mcu.twi.address == old(mcu).twi.address,
                mcu.twi.state == TwiState::Ready,
                bus.same_slave(&*old(bus)),
                buf@ == blank_run(),
                old(mcu).twi.state == TwiState::Ready,
                write_outcome(true, full_screen_window(), old(bus).acks_address, old(bus).acked_bytes as nat, old(bus).fault, old(bus).fault_at as nat) is Ok,
                e1 == old(bus).events@ + write_events(
                    true,
                    old(mcu).twi.address,
                    full_screen_window(),
                    old(bus).acks_address,
                    old(bus).acked_bytes as nat,
                    old(bus).fault,
                    old(bus).fault_at as nat,
                ),
                i > 0 ==> expected_outcome(blank_run(), bus.acks_address, bus.acked_bytes as nat, bus.fault, bus.fault_at as nat) is Ok,
                bus.events@ == e1 + repeat(
                    expected_events(mcu.twi.address, blank_run(), bus.acks_address, bus.acked_bytes as nat, bus.fault, bus.fault_at as nat),
                    i as nat,
                ),
            decreases 128 - i,
        {
            let ghost before = bus.events@;
            let res = twi.write(mcu, bus, buf.as_slice());
            proof {
                let e2 = expected_events(mcu.twi.address, blank_run(), bus.acks_address, bus.acked_bytes as nat, bus.fault, bus.fault_at as nat);
                assert(repeat(e2, (i + 1) as nat) == repeat(e2, i as nat) + e2);
                assert(before + e2 =~= e1 + repeat(e2, (i + 1) as nat));
            }
            match res {
                Ok(()) => {},
                Err(e) => {
                    assert(i == 0);
                    assert(repeat(expected_events(mcu.twi.address, blank_run(), bus.acks_address, bus.acked_bytes as nat, bus.fault, bus.fault_at as nat), 0) =~= Seq::<BusEvent>::empty());
                    return Err(e);
                },
            }
            i = i + 1;
        }
        Ok(())
    }

    /// Shows a full-screen image: selects the whole screen, then sends the
    /// image one buffer-load at a time. Each load must begin with the data
    /// control byte.
    pub fn display_splash(
        &mut self,
        twi: &mut TWI,
        mcu: &mut Mcu,
        bus: &mut SimBus,
        splash: PGMSlice,
    ) -> (r: Result<(), TWIError>)
        requires
            old(mcu).wf(),
        ensures
            final(mcu).wf(),
            final(mcu).agrees_apart_from_twi(old(mcu)),
            final(mcu).twi.address == old(mcu).twi.address,
            final(bus).same_slave(&*old(bus)),
            old(mcu).twi.state == TwiState::Ready ==> final(mcu).twi.state == TwiState::Ready,
            ({
                let ready = old(mcu).twi.state == TwiState::Ready;
                let acks = old(bus).acks_address;
                let acked = old(bus).acked_bytes as nat;
                let fault = old(bus).fault;
                let fault_at = old(bus).fault_at as nat;
                let addr = old(mcu).twi.address;
                let o1 = write_outcome(ready, full_screen_window(), acks, acked, fault, fault_at);
                let e1 = write_events(ready, addr, full_screen_window(), acks, acked, fault, fault_at);
                let rest = chunked_writes(addr, splash@, acks, acked, fault, fault_at);
                &&& r == then_outcome(o1, rest.0)
                &&& o1 is Err ==> final(bus).events@ == old(bus).events@ + e1
                &&& o1 is Ok ==> final(bus).events@ == old(bus).events@ + e1 + rest.1
            }),
    {
        let commands: [u8; 7] = [
            SSD1306_COMMAND,
            SSD1306_PAGEADDR,
            0,
            7,
            SSD1306_COLUMNADDR,
            0,
            127,
        ];
        assert(commands@ =~= full_screen_window());
        match twi.write(mcu, bus, commands.as_slice()) {
            Ok(()) => {},
            Err(e) => {
                return Err(e);
            },
        }
        let ghost e1 = bus.events@;
        let ghost addr = mcu.twi.address;
        let ghost acks = bus.acks_address;
        let ghost acked = bus.acked_bytes as nat;
        let ghost fault = bus.fault;
        let ghost fault_at = bus.fault_at as nat;
        let ghost all = chunked_writes(addr, splash@, acks, acked, fault, fault_at);
        let mut chunks = splash.chunks(BUFFER_LEN);
        loop
            invariant
                mcu.wf(),
                mcu.agrees_apart_from_twi(old(mcu)),
                mcu.twi.address == addr,
                addr == old(mcu).twi.address,
                mcu.twi.state == TwiState::Ready,
                bus.acks_address == acks,
                bus.acked_bytes == acked,
                bus.fault == fault,
                bus.fault_at == fault_at,
                acks == old(bus).acks_address,
                acked == old(bus).acked_bytes,
                fault == old(bus).fault,
                fault_at == old(bus).fault_at,
                chunks.chunk_len() == BUFFER_LEN,
                all == chunked_writes(addr, splash@, acks, acked, fault, fault_at),
                all.0 == chunked_writes(addr, chunks.rest(), acks, acked, fault, fault_at).0,
                e1 + all.1 == bus.events@ + chunked_writes(addr, chunks.rest(), acks, acked, fault, fault_at).1,
                e1 == old(bus).events@ + write_events(true, addr, full_screen_window(), acks, acked, fault, fault_at),
                old(mcu).twi.state == TwiState::Ready,
                write_outcome(true, full_screen_window(), acks, acked, fault, fault_at) is Ok,
            decreases chunks.rest().len(),
        {
            let ghost rest = chunks.rest();
            let ghost before = bus.events@;
            match chunks.next() {
                None => {
                    assert(chunked_writes(addr, chunks.rest(), acks, acked, fault, fault_at).1 =~= Seq::<BusEvent>::empty());
                    assert(bus.events@ =~= e1 + all.1);
                    return Ok(());
                },
                Some(chunk) => {
                    let res = twi.write(mcu, bus, &chunk);
                    let ghost n = if rest.len() < BUFFER_LEN {
                        rest.len() as int
                    } else {
                        BUFFER_LEN as int
                    };
                    let ghost o = expected_outcome(rest.take(n), acks, acked, fault, fault_at);
                    let ghost e = expected_events(addr, rest.take(n), acks, acked, fault, fault_at);
                    let ghost tail = chunked_writes(addr, rest.skip(n), acks, acked, fault, fault_at);
                    proof {
                        assert(chunk@ == rest.take(n));
                        assert(chunked_writes(addr, rest, acks, acked, fault, fault_at) == (if o is Err {
                            (o, e)
                        } else {
                            (tail.0, e + tail.1)
                        }));
                        assert(bus.events@ == before + e);
                        assert(chunks.rest() == rest.skip(n));
                    }
                    match res {
                        Ok(()) => {
                            assert(before + (e + tail.1) =~= before + e + tail.1);
                        },
                        Err(err) => {
                            return Err(err);
                        },
                    }
                },
            }
        }
    }

    /// Draws one 8-by-8 tile at column `x`, page `y`: selects the cell, then
    /// sends the tile (its data control byte included).
    pub fn draw_tile<T: ByteBundle + ?Sized>(
        &mut self,
        twi: &mut TWI,
        mcu: &mut Mcu,
        bus: &mut SimBus,
        tile: &T,
        x: u8,
        y: u8,
    ) -> (r: Result<(), TWIError>)
        requires
            old(mcu).wf(),
            x < 32,
        ensures
            final(mcu).wf(),
            final(mcu).agrees_apart_from_twi(old(mcu)),
            final(mcu).twi.address == old(mcu).twi.address,
            final(bus).same_slave(&*old(bus)),
            old(mcu).twi.state == TwiState::Ready ==> final(mcu).twi.state == TwiState::Ready,
            ({
                let ready = old(mcu).twi.state == TwiState::Ready;
                let acks = old(bus).acks_address;
                let acked = old(bus).acked_bytes as nat;
                let fault = old(bus).fault;
                let fault_at = old(bus).fault_at as nat;
                let addr = old(mcu).twi.address;
                let o1 = write_outcome(ready, cell_window(x, y), acks, acked, fault, fault_at);
                let e1 = write_events(ready, addr, cell_window(x, y), acks, acked, fault, fault_at);
                let o2 = write_outcome(true, tile.bytes(), acks, acked, fault, fault_at);
                let e2 = write_events(true, addr, tile.bytes(), acks, acked, fault, fault_at);
                &&& r == then_outcome(o1, o2)
                &&& o1 is Err ==> final(bus).events@ == old(bus).events@ + e1
                &&& o1 is Ok ==> final(bus).events@ == old(bus).events@ + e1 + e2
            }),
    {
        let commands: [u8; 7] = [
            SSD1306_COMMAND,
            SSD1306_PAGEADDR,
            y,
            y,
            SSD1306_COLUMNADDR,
            x * 8,
            x * 8 + 7,
        ];
        assert(commands@ =~= cell_window(x, y));
        match twi.write(mcu, bus, commands.as_slice()) {
            Ok(()) => {},
            Err(e) => {
                return Err(e);
            },
        }
        twi.write(mcu, bus, tile)
    }
}

} // verus!
