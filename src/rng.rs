//! A pseudo-random number generator: a 16-bit Galois linear feedback shift
//! register with taps 0xB400.
use vstd::prelude::*;

verus! {

/// The register after one shift.
pub open spec fn lfsr_step(s: u16) -> u16 {
    if s & 1 != 0 {
        (s >> 1) ^ 0xB400
    } else {
        s >> 1
    }
}

/// The byte drawn from a register state: its high byte.
pub open spec fn lfsr_output(s: u16) -> u8 {
    (s >> 8) as u8
}

pub struct Rng(u16);

impl Rng {
    pub closed spec fn view(&self) -> u16 {
        self.0
    }

    pub fn new(seed: u16) -> (r: Rng)
        ensures
            r@ == seed,
    {
        Rng(seed)
    }

    /// Shifts the register once and returns its high byte.
    pub fn next(&mut self) -> (r: u8)
        ensures
            final(self)@ == lfsr_step(old(self)@),
            r == lfsr_output(final(self)@),
    {
        let lsb = self.0 & 0x1;
        self.0 = self.0 >> 1;
        if lsb != 0 {
            self.0 = self.0 ^ 0xB400;
        }
        (self.0 >> 8) as u8
    }

    /// A number in `min..max`, or `min` itself (without drawing) when the
    /// range is empty.
    pub fn next_range(&mut self, min: u8, max: u8) -> (r: u8)
        requires
            min <= max,
        ensures
            min == max ==> r == min && final(self)@ == old(self)@,
            min < max ==> final(self)@ == lfsr_step(old(self)@) && r == lfsr_output(final(self)@) % (max - min) as u8
                + min,
            min < max ==> min <= r < max,
    {
        let range = max - min;
        if range == 0 {
            min
        } else {
            let v = self.next();
            (v % range) + min
        }
    }
}

} // verus!
