use super::{blinker_pixels, Blinker, Breather, FallingSand, Laser};
use crate::screen::{Component, Pixel};
use vstd::prelude::*;

verus! {

/// Any one of the components of this library, so that a single screen can
/// show components of different kinds side by side.
#[derive(Debug)]
pub enum Sprite {
    Blinker(Blinker),
    Breather(Breather),
    FallingSand(FallingSand),
    Laser(Laser),
    Pixel(Pixel),
}

impl Component for Sprite {
    /// The pixels of the component inside.
    open spec fn pixels(&self) -> Seq<Pixel> {
        match *self {
            Sprite::Blinker(inner) => blinker_pixels(inner@),
            Sprite::Breather(inner) => inner@.pixels(),
            Sprite::FallingSand(inner) => inner@.pixels(),
            Sprite::Laser(inner) => inner@.pixels(),
            Sprite::Pixel(inner) => seq![inner],
        }
    }

    /// A tick keeps the kind of the component and takes the component
    /// inside through one tick of its own.
    open spec fn steps_to(&self, next: &Sprite) -> bool {
        match (*self, *next) {
            (Sprite::Blinker(from), Sprite::Blinker(to)) => to@ == !from@,
            (Sprite::Breather(from), Sprite::Breather(to)) => to@ == from@.ticked(),
            (Sprite::FallingSand(from), Sprite::FallingSand(to)) => from@.steps_to(to@),
            (Sprite::Laser(from), Sprite::Laser(to)) => to@ == from@.ticked(),
            (Sprite::Pixel(from), Sprite::Pixel(to)) => to == from,
            _ => false,
        }
    }

    fn render(&self) -> (out: Vec<Pixel>) {
        match self {
            Sprite::Blinker(inner) => inner.render(),
            Sprite::Breather(inner) => inner.render(),
            Sprite::FallingSand(inner) => inner.render(),
            Sprite::Laser(inner) => inner.render(),
            Sprite::Pixel(inner) => inner.render(),
        }
    }

    fn tick(&mut self) {
        match self {
            Sprite::Blinker(inner) => inner.tick(),
            Sprite::Breather(inner) => inner.tick(),
            Sprite::FallingSand(inner) => inner.tick(),
            Sprite::Laser(inner) => inner.tick(),
            Sprite::Pixel(inner) => inner.tick(),
        }
    }
}

} // verus!
