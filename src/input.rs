//! The four direction buttons of the console, on port D.
use vstd::prelude::*;
use crate::button::Button;
use crate::clock::Instant;
use crate::ports::{PinMode, PortBit, PortD, PortDPins, configured, DDRD, PORTD};
use crate::register::IoMemory;

verus! {

pub struct Input {
    left: Button<PortD>,
    right: Button<PortD>,
    up: Button<PortD>,
    down: Button<PortD>,
}

/// The I/O space once the four pins are inputs with pull-ups.
pub open spec fn buttons_configured(mem: Seq<u8>) -> Seq<u8> {
    let m1 = configured::<DDRD, PORTD>(mem, 3, PinMode::InputPullup);
    let m2 = configured::<DDRD, PORTD>(m1, 4, PinMode::InputPullup);
    let m3 = configured::<DDRD, PORTD>(m2, 5, PinMode::InputPullup);
    configured::<DDRD, PORTD>(m3, 6, PinMode::InputPullup)
}

impl Input {
    pub closed spec fn left_button(&self) -> Button<PortD> {
        self.left
    }

    pub closed spec fn right_button(&self) -> Button<PortD> {
        self.right
    }

    pub closed spec fn up_button(&self) -> Button<PortD> {
        self.up
    }

    pub closed spec fn down_button(&self) -> Button<PortD> {
        self.down
    }

    /// Left on PD3, right on PD4, down on PD5 and up on PD6, all released.
    pub fn init(io: &mut IoMemory) -> (r: Input)
        requires
            old(io).wf(),
        ensures
            final(io).wf(),
            final(io)@ == buttons_configured(old(io)@),
            r.left_button().spec_pin() == PortDPins::PD3,
            r.right_button().spec_pin() == PortDPins::PD4,
            r.down_button().spec_pin() == PortDPins::PD5,
            r.up_button().spec_pin() == PortDPins::PD6,
            !r.left_button().pressed() && !r.left_button().changed(),
            !r.right_button().pressed() && !r.right_button().changed(),
            !r.up_button().pressed() && !r.up_button().changed(),
            !r.down_button().pressed() && !r.down_button().changed(),
            r.left_button().last_change() == 0 && r.right_button().last_change() == 0,
            r.up_button().last_change() == 0 && r.down_button().last_change() == 0,
    {
        let left = Button::new(io, PortDPins::PD3);
        let right = Button::new(io, PortDPins::PD4);
        let down = Button::new(io, PortDPins::PD5);
        let up = Button::new(io, PortDPins::PD6);
        Input { left, right, up, down }
    }

    /// Updates every button at `now`; returns whether any was pressed.
    pub fn update(&mut self, io: &IoMemory, now: Instant) -> (r: bool)
        requires
            io.wf(),
        ensures
            old(self).left_button().update_step(&final(self).left_button(), io@, now@),
            old(self).right_button().update_step(&final(self).right_button(), io@, now@),
            old(self).up_button().update_step(&final(self).up_button(), io@, now@),
            old(self).down_button().update_step(&final(self).down_button(), io@, now@),
            r == (final(self).spec_left() || final(self).spec_right() || final(self).spec_up()
                || final(self).spec_down()),
    {
        self.left.update(io, now);
        self.right.update(io, now);
        self.up.update(io, now);
        self.down.update(io, now);
        self.left() || self.right() || self.up() || self.down()
    }

    pub open spec fn spec_left(&self) -> bool {
        self.left_button().changed() && self.left_button().pressed()
    }

    pub open spec fn spec_right(&self) -> bool {
        self.right_button().changed() && self.right_button().pressed()
    }

    pub open spec fn spec_up(&self) -> bool {
        self.up_button().changed() && self.up_button().pressed()
    }

    pub open spec fn spec_down(&self) -> bool {
        self.down_button().changed() && self.down_button().pressed()
    }

    /// Whether the last update accepted a press of left.
    #[verifier::when_used_as_spec(spec_left)]
    pub fn left(&self) -> (r: bool)
        ensures
            r == self.spec_left(),
    {
        self.left.was_pressed()
    }

    #[verifier::when_used_as_spec(spec_right)]
    pub fn right(&self) -> (r: bool)
        ensures
            r == self.spec_right(),
    {
        self.right.was_pressed()
    }

    #[verifier::when_used_as_spec(spec_up)]
    pub fn up(&self) -> (r: bool)
        ensures
            r == self.spec_up(),
    {
        self.up.was_pressed()
    }

    #[verifier::when_used_as_spec(spec_down)]
    pub fn down(&self) -> (r: bool)
        ensures
            r == self.spec_down(),
    {
        self.down.was_pressed()
    }
}

} // verus!
