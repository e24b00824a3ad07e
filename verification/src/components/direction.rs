use std::ops::Not;
use vstd::prelude::*;
use vstd::std_specs::ops::NotSpecImpl;

verus! {

/// One of the four ways to move by a single cell. `y` grows downwards, so `Up`
/// lowers `y` and `Down` raises it.
#[derive(Debug, Clone, Copy, PartialEq, Eq, Structural)]
pub enum Direction {
    Up,
    Down,
    Left,
    Right,
}

impl Direction {
    /// The opposite direction on the same axis.
    pub open spec fn inverse(self) -> Direction {
        match self {
            Direction::Up => Direction::Down,
            Direction::Down => Direction::Up,
            Direction::Left => Direction::Right,
            Direction::Right => Direction::Left,
        }
    }

    /// Whether the direction lies on the vertical axis.
    pub open spec fn is_vertical(self) -> bool {
        self is Up || self is Down
    }

    /// Returns `true` if the direction is [`Direction::Up`].
    #[must_use]
    pub fn is_up(&self) -> (out: bool)
        ensures
            out == (*self is Up),
    {
        matches!(self, Direction::Up)
    }

    /// Returns `true` if the direction is [`Direction::Down`].
    #[must_use]
    pub fn is_down(&self) -> (out: bool)
        ensures
            out == (*self is Down),
    {
        matches!(self, Direction::Down)
    }

    /// Returns `true` if the direction is [`Direction::Left`].
    #[must_use]
    pub fn is_left(&self) -> (out: bool)
        ensures
            out == (*self is Left),
    {
        matches!(self, Direction::Left)
    }

    /// Returns `true` if the direction is [`Direction::Right`].
    #[must_use]
    pub fn is_right(&self) -> (out: bool)
        ensures
            out == (*self is Right),
    {
        matches!(self, Direction::Right)
    }

    /// Inverting twice gives the direction back, inverting once never does,
    /// and an inverted direction stays on its axis.
    pub proof fn lemma_inverse_is_involution(self)
        ensures
            self.inverse().inverse() == self,
            self.inverse() != self,
            self.inverse().is_vertical() == self.is_vertical(),
    {
    }
}

impl Not for Direction {
    type Output = Direction;

    /// `!d` is `d.inverse()`.
    fn not(self) -> (out: Direction) {
        match self {
            Direction::Down => Direction::Up,
            Direction::Up => Direction::Down,
            Direction::Left => Direction::Right,
            Direction::Right => Direction::Left,
        }
    }
}

impl NotSpecImpl for Direction {
    open spec fn obeys_not_spec() -> bool {
        true
    }

    open spec fn not_req(self) -> bool {
        true
    }

    open spec fn not_spec(self) -> Direction {
        self.inverse()
    }
}

} // verus!
