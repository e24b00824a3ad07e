use crate::screen::{Component, Pixel, Pos};
use vstd::prelude::*;

verus! {

/// The colour a blinker shows while it is on: opaque white.
pub const BLINKER_ON: u32 = 0xffff_ffff;

/// The colour a blinker shows while it is off: fully transparent black.
pub const BLINKER_OFF: u32 = 0x0000_0000;

/// What a blinker shows: one pixel at the origin, white while `on` and
/// transparent otherwise.
pub open spec fn blinker_pixels(on: bool) -> Seq<Pixel> {
    seq![Pixel { pos: Pos { x: 0, y: 0 }, color: if on { BLINKER_ON } else { BLINKER_OFF } }]
}

/// A dot at the origin that is on every other tick.
#[derive(Debug, Clone, Copy)]
pub struct Blinker {
    active: bool,
}

impl View for Blinker {
    type V = bool;

    /// Whether the blinker is on.
    closed spec fn view(&self) -> bool {
        self.active
    }
}

impl Blinker {
    /// A blinker that is off.
    pub fn new() -> (out: Self)
        ensures
            !out@,
    {
        Self { active: false }
    }

    /// Turns the blinker on if it is off, and off if it is on.
    pub fn toggle(&mut self)
        ensures
            final(self)@ == !old(self)@,
    {
        self.active = !self.active;
    }

    /// Whether the blinker is on.
    pub fn is_active(&self) -> (out: bool)
        ensures
            out == self@,
    {
        self.active
    }
}

impl Component for Blinker {
    /// One pixel at the origin, white while on and transparent while off.
    open spec fn pixels(&self) -> Seq<Pixel> {
        blinker_pixels(self@)
    }

    /// A tick flips the blinker.
    open spec fn steps_to(&self, next: &Blinker) -> bool {
        next@ == !self@
    }

    fn render(&self) -> (out: Vec<Pixel>) {
        let color: u32 = if self.is_active() {
            BLINKER_ON
        } else {
            BLINKER_OFF
        };
        let pixel = Pixel { pos: Pos::default(), color };

        vec![pixel]
    }

    fn tick(&mut self) {
        self.toggle();
    }
}

} // verus!
