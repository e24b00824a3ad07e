use crate::components::Direction;
use std::ops::{Add, AddAssign, Sub, SubAssign};
use vstd::prelude::*;
use vstd::std_specs::ops::{AddSpecImpl, SubSpecImpl};

verus! {

/// A cell of a grid.
///
/// `x` runs from left to right, `y` from top to bottom. Coordinates are
/// unsigned; arithmetic on positions saturates at `0` and at `usize::MAX`
/// on each axis, so it is defined for every pair of operands.
#[derive(Debug, Clone, Copy, PartialEq, Eq, Structural, Hash)]
pub struct Pos {
    pub x: usize,
    pub y: usize,
}

/// `a + b`, held at `usize::MAX` where the sum would pass it.
pub open spec fn saturating_sum(a: usize, b: usize) -> usize {
    if a + b > usize::MAX {
        usize::MAX
    } else {
        (a + b) as usize
    }
}

/// `a - b`, held at `0` where the difference would be negative.
pub open spec fn saturating_difference(a: usize, b: usize) -> usize {
    if a < b {
        0
    } else {
        (a - b) as usize
    }
}

impl Pos {
    /// The position reached by adding `rhs` axis by axis.
    pub open spec fn plus(self, rhs: Pos) -> Pos {
        Pos { x: saturating_sum(self.x, rhs.x), y: saturating_sum(self.y, rhs.y) }
    }

    /// The position reached by subtracting `rhs` axis by axis.
    pub open spec fn minus(self, rhs: Pos) -> Pos {
        Pos { x: saturating_difference(self.x, rhs.x), y: saturating_difference(self.y, rhs.y) }
    }

    /// The neighbouring position one cell away in direction `dir`.
    pub open spec fn step(self, dir: Direction) -> Pos {
        match dir {
            Direction::Up => self.minus(Pos { x: 0, y: 1 }),
            Direction::Down => self.plus(Pos { x: 0, y: 1 }),
            Direction::Left => self.minus(Pos { x: 1, y: 0 }),
            Direction::Right => self.plus(Pos { x: 1, y: 0 }),
        }
    }
}

impl Default for Pos {
    /// The origin.
    fn default() -> (out: Pos)
        ensures
            out == (Pos { x: 0, y: 0 }),
    {
        Pos { x: 0, y: 0 }
    }
}

impl Add<Pos> for Pos {
    type Output = Pos;

    fn add(self, rhs: Pos) -> (out: Pos) {
        Pos { x: self.x.saturating_add(rhs.x), y: self.y.saturating_add(rhs.y) }
    }
}

impl AddSpecImpl<Pos> for Pos {
    open spec fn obeys_add_spec() -> bool {
        true
    }

    open spec fn add_req(self, rhs: Pos) -> bool {
        true
    }

    open spec fn add_spec(self, rhs: Pos) -> Pos {
        self.plus(rhs)
    }
}

impl Sub<Pos> for Pos {
    type Output = Pos;

    fn sub(self, rhs: Pos) -> (out: Pos) {
        Pos { x: self.x.saturating_sub(rhs.x), y: self.y.saturating_sub(rhs.y) }
    }
}

impl SubSpecImpl<Pos> for Pos {
    open spec fn obeys_sub_spec() -> bool {
        true
    }

    open spec fn sub_req(self, rhs: Pos) -> bool {
        true
    }

    open spec fn sub_spec(self, rhs: Pos) -> Pos {
        self.minus(rhs)
    }
}

impl Add<Direction> for Pos {
    type Output = Pos;

    fn add(self, dir: Direction) -> (out: Pos) {
        match dir {
            Direction::Up => self - Pos { x: 0, y: 1 },
            Direction::Down => self + Pos { x: 0, y: 1 },
            Direction::Left => self - Pos { x: 1, y: 0 },
            Direction::Right => self + Pos { x: 1, y: 0 },
        }
    }
}

impl AddSpecImpl<Direction> for Pos {
    open spec fn obeys_add_spec() -> bool {
        true
    }

    open spec fn add_req(self, dir: Direction) -> bool {
        true
    }

    open spec fn add_spec(self, dir: Direction) -> Pos {
        self.step(dir)
    }
}

impl AddAssign<Pos> for Pos {
    fn add_assign(&mut self, rhs: Pos)
        ensures
            *final(self) == old(self).plus(rhs),
    {
        *self = *self + rhs;
    }
}

impl SubAssign<Pos> for Pos {
    fn sub_assign(&mut self, rhs: Pos)
        ensures
            *final(self) == old(self).minus(rhs),
    {
        *self = *self - rhs;
    }
}

} // verus!
