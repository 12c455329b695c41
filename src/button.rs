//! Debounced push buttons.
//!
//! A button grounds its pin, which has the internal pull-up enabled, so a
//! low reading means pressed. A press is accepted only once the debounce
//! time has passed since the last accepted change; a release is accepted at
//! once.
use vstd::prelude::*;
use crate::clock::{Instant, wrapping_diff};
use crate::ports::{PinMode, Port, PortBit, configured, pin_high};
use crate::register::IoMemory;

verus! {

/// Ticks that must pass after an accepted change before a press is accepted.
pub const DEBOUNCE_TIME: u16 = 2;

/// Whether an update accepts a change, given the stored state, the raw
/// reading and the ticks since the last accepted change.
pub open spec fn accepts(is_pressed: bool, raw_pressed: bool, elapsed: u16) -> bool {
    (!raw_pressed && is_pressed) || (raw_pressed && !is_pressed && elapsed >= DEBOUNCE_TIME)
}

/// Whether the pin of `pin` on port `P` reads pressed (low).
pub open spec fn raw_pressed<P: Port>(mem: Seq<u8>, pin: P::ValidPins) -> bool {
    !pin_high::<P::PIN>(mem, pin.spec_bit())
}

pub struct Button<PinPort: Port> {
    is_pressed: bool,
    had_state_change: bool,
    last_press_time: Instant,
    pin: PinPort::ValidPins,
}

impl<PinPort: Port> Button<PinPort> {
    /// The accepted state: pressed or not.
    pub closed spec fn pressed(&self) -> bool {
        self.is_pressed
    }

    /// Whether the last update accepted a change.
    pub closed spec fn changed(&self) -> bool {
        self.had_state_change
    }

    /// When the last change was accepted.
    pub closed spec fn last_change(&self) -> u16 {
        self.last_press_time@
    }

    pub closed spec fn spec_pin(&self) -> PinPort::ValidPins {
        self.pin
    }

    /// Whether `next` is this button after an update that samples the I/O
    /// space `mem` at tick `now`.
    pub open spec fn update_step(&self, next: &Self, mem: Seq<u8>, now: u16) -> bool {
        let raw = raw_pressed::<PinPort>(mem, self.spec_pin());
        let accepted = accepts(self.pressed(), raw, wrapping_diff(now, self.last_change()));
        &&& next.changed() == accepted
        &&& next.pressed() == (if accepted {
            raw
        } else {
            self.pressed()
        })
        &&& next.last_change() == (if accepted {
            now
        } else {
            self.last_change()
        })
        &&& next.spec_pin() == self.spec_pin()
    }

    /// Configures `pin` as an input with its pull-up, and starts released.
    pub fn new(io: &mut IoMemory, pin: PinPort::ValidPins) -> (r: Self)
        requires
            old(io).wf(),
        ensures
            final(io).wf(),
            final(io)@ == configured::<PinPort::DDR, PinPort::PORT>(
                old(io)@,
                pin.spec_bit(),
                PinMode::InputPullup,
            ),
            !r.pressed(),
            !r.changed(),
            r.last_change() == 0,
            r.spec_pin() == pin,
    {
        PinPort::set_pin_mode(io, pin, PinMode::InputPullup);
        Button {
            is_pressed: false,
            had_state_change: false,
            last_press_time: Instant::default(),
            pin,
        }
    }

    /// Samples the pin at `cur_time` and returns whether the accepted state
    /// changed.
    pub fn update(&mut self, io: &IoMemory, cur_time: Instant) -> (r: bool)
        requires
            io.wf(),
        ensures
            old(self).update_step(&*final(self), io@, cur_time@),
            r == final(self).changed(),
    {
        let cur_pressed = !PinPort::get_pin_state(io, self.pin);
        self.had_state_change = false;
        let time_dif = cur_time.elapsed(self.last_press_time);
        if (!cur_pressed && self.is_pressed) || (cur_pressed && !self.is_pressed && time_dif
            >= DEBOUNCE_TIME) {
            self.is_pressed = cur_pressed;
            self.last_press_time = cur_time;
            self.had_state_change = true;
        }
        self.had_state_change
    }

    /// Whether the last update accepted a press.
    pub fn was_pressed(&self) -> (r: bool)
        ensures
            r == (self.changed() && self.pressed()),
    {
        self.had_state_change && self.is_pressed
    }
}

/// A release is never delayed: a pressed button whose pin reads released
/// reports a change, and is released, on the very next update.
pub proof fn lemma_release_is_immediate(elapsed: u16)
    ensures
        accepts(true, false, elapsed),
{
}

/// A press is accepted exactly when the debounce time has passed since the
/// last accepted change.
pub proof fn lemma_press_waits_for_debounce(elapsed: u16)
    ensures
        accepts(false, true, elapsed) <==> elapsed >= DEBOUNCE_TIME,
{
}

} // verus!
