use super::Pos;
use crate::components::Direction;
use vstd::prelude::*;

verus! {

/// A rectangle of cells from `(0, 0)` to `(width - 1, height - 1)`, both
/// included.
#[derive(Debug, Clone, Copy, PartialEq, Eq, Structural)]
pub struct Bounds {
    pub width: usize,
    pub height: usize,
}

impl Bounds {
    /// The left or right edge that `pos` lies on, if any. A position on both
    /// (a rectangle one cell wide) counts as on the right edge.
    pub open spec fn horizontal_edge(self, pos: Pos) -> Option<Direction> {
        if pos.x == self.width - 1 {
            Some(Direction::Right)
        } else if pos.x == 0 {
            Some(Direction::Left)
        } else {
            None
        }
    }

    /// The top or bottom edge that `pos` lies on, if any. A position on both
    /// (a rectangle one cell high) counts as on the bottom edge.
    pub open spec fn vertical_edge(self, pos: Pos) -> Option<Direction> {
        if pos.y == self.height - 1 {
            Some(Direction::Down)
        } else if pos.y == 0 {
            Some(Direction::Up)
        } else {
            None
        }
    }

    /// Whether `pos` is one of the rectangle's cells.
    pub open spec fn contains(self, pos: Pos) -> bool {
        pos.x < self.width && pos.y < self.height
    }

    /// Returns the horizontal edge that `pos` touches, if any, and the
    /// vertical edge that it touches, if any.
    pub fn edges(&self, pos: &Pos) -> (out: (Option<Direction>, Option<Direction>))
        ensures
            out.0 == self.horizontal_edge(*pos),
            out.1 == self.vertical_edge(*pos),
    {
        let mut on: (Option<Direction>, Option<Direction>) = (None, None);

        if pos.x == 0 {
            on.0 = Some(Direction::Left);
        }
        if self.width > 0 && pos.x == self.width - 1 {
            on.0 = Some(Direction::Right);
        }

        if pos.y == 0 {
            on.1 = Some(Direction::Up);
        }
        if self.height > 0 && pos.y == self.height - 1 {
            on.1 = Some(Direction::Down);
        }

        on
    }
}

} // verus!
