use super::Direction;
use crate::screen::{Bounds, Component, Pixel, Pos};
use std::ops::Not;
use vstd::prelude::*;

verus! {

/// The most positions a laser's trail holds.
pub const TRAIL_CAPACITY: usize = 10;

/// A point that moves diagonally inside a rectangle, turns round on each
/// axis when it touches an edge of that axis, and drags a short trail of
/// the positions it came through.
#[derive(Debug)]
pub struct Laser {
    bounds: Bounds,
    body: Vec<Pos>,
    directions: (Direction, Direction),
    offset: Pos,
    color: u32,
}

/// What a [`Laser`] holds. The trail runs from the oldest position to the
/// head; `directions` is the horizontal and the vertical heading.
pub struct LaserView {
    pub bounds: Bounds,
    pub trail: Seq<Pos>,
    pub directions: (Direction, Direction),
    pub offset: Pos,
    pub color: u32,
}

impl LaserView {
    /// The newest position of the trail.
    pub open spec fn head(self) -> Pos {
        self.trail.last()
    }

    /// The headings for the next step: each axis is inverted if the head
    /// touches an edge of that axis, whichever edge it is.
    pub open spec fn turned(self) -> (Direction, Direction) {
        (
            if self.bounds.horizontal_edge(self.head()) is Some {
                self.directions.0.inverse()
            } else {
                self.directions.0
            },
            if self.bounds.vertical_edge(self.head()) is Some {
                self.directions.1.inverse()
            } else {
                self.directions.1
            },
        )
    }

    /// The head after the next step: one cell along each turned heading. A
    /// step that would leave the range of coordinates stays at its end; a
    /// laser on course never takes such a step.
    pub open spec fn next_head(self) -> Pos {
        self.head().step(self.turned().0).step(self.turned().1)
    }

    /// The state after one tick: the headings are turned, the new head joins
    /// the trail, and the oldest position leaves it once the trail would
    /// hold more than [`TRAIL_CAPACITY`].
    pub open spec fn ticked(self) -> LaserView {
        let grown = self.trail.push(self.next_head());
        LaserView {
            trail: if grown.len() > TRAIL_CAPACITY {
                grown.drop_first()
            } else {
                grown
            },
            directions: self.turned(),
            ..self
        }
    }

    /// The state after `n` ticks.
    pub open spec fn after(self, n: nat) -> LaserView
        decreases n,
    {
        if n == 0 {
            self
        } else {
            self.after((n - 1) as nat).ticked()
        }
    }

    /// One pixel of the laser's colour for each position of the trail,
    /// oldest first.
    pub open spec fn pixels(self) -> Seq<Pixel> {
        self.trail.map_values(|pos: Pos| Pixel { pos, color: self.color })
    }

    /// The state of a laser that was just made: at the origin, heading left
    /// and up.
    pub open spec fn fresh(bounds: Bounds, offset: Pos, color: u32) -> LaserView {
        LaserView {
            bounds,
            trail: seq![Pos { x: 0, y: 0 }],
            directions: (Direction::Left, Direction::Up),
            offset,
            color,
        }
    }

    /// The laser is where reflection keeps it: the rectangle has room to
    /// move on both axes, the head is inside it, the first heading is
    /// horizontal and the second vertical, and a head on an edge got there
    /// by heading for that edge.
    pub open spec fn on_course(self) -> bool {
        &&& self.bounds.width >= 2
        &&& self.bounds.height >= 2
        &&& self.trail.len() >= 1
        &&& self.bounds.contains(self.head())
        &&& !self.directions.0.is_vertical()
        &&& self.directions.1.is_vertical()
        &&& (self.head().x == 0 ==> self.directions.0 is Left)
        &&& (self.head().x == self.bounds.width - 1 ==> self.directions.0 is Right)
        &&& (self.head().y == 0 ==> self.directions.1 is Up)
        &&& (self.head().y == self.bounds.height - 1 ==> self.directions.1 is Down)
    }

    /// The trail grows by one position per tick until it holds
    /// [`TRAIL_CAPACITY`], and then stays at that length.
    pub proof fn lemma_trail_length(self, n: nat)
        requires
            self.trail.len() <= TRAIL_CAPACITY,
        ensures
            self.after(n).trail.len() == if self.trail.len() + n < TRAIL_CAPACITY {
                self.trail.len() + n
            } else {
                TRAIL_CAPACITY as nat
            },
        decreases n,
    {
        if n > 0 {
            self.lemma_trail_length((n - 1) as nat);
        }
    }

    /// After `n` ticks a new laser's trail holds `min(n + 1, TRAIL_CAPACITY)`
    /// positions.
    pub proof fn lemma_fresh_trail_length(bounds: Bounds, offset: Pos, color: u32, n: nat)
        ensures
            Self::fresh(bounds, offset, color).after(n).trail.len() == if n + 1 < TRAIL_CAPACITY {
                n + 1
            } else {
                TRAIL_CAPACITY as nat
            },
    {
        Self::fresh(bounds, offset, color).lemma_trail_length(n);
    }

    /// A tick of a laser on course moves the head by exactly one cell on
    /// each axis, away from any edge it touched, and leaves the laser on
    /// course.
    pub proof fn lemma_tick_reflects(self)
        requires
            self.on_course(),
        ensures
            self.ticked().on_course(),
            self.ticked().head() == self.next_head(),
            self.next_head().x == if self.head().x == 0 {
                1
            } else if self.head().x == self.bounds.width - 1 {
                self.head().x - 1
            } else if self.directions.0 is Left {
                self.head().x - 1
            } else {
                self.head().x + 1
            },
            self.next_head().y == if self.head().y == 0 {
                1
            } else if self.head().y == self.bounds.height - 1 {
                self.head().y - 1
            } else if self.directions.1 is Up {
                self.head().y - 1
            } else {
                self.head().y + 1
            },
    {
    }

    /// A laser on course stays on course, and so inside its rectangle,
    /// however many ticks pass.
    pub proof fn lemma_stays_on_course(self, n: nat)
        requires
            self.on_course(),
        ensures
            self.after(n).on_course(),
            self.bounds.contains(self.after(n).head()),
            self.after(n).bounds == self.bounds,
        decreases n,
    {
        if n > 0 {
            self.lemma_stays_on_course((n - 1) as nat);
            self.after((n - 1) as nat).lemma_tick_reflects();
        }
    }

    /// A new laser is on course if its rectangle is at least two cells wide
    /// and two cells high.
    pub proof fn lemma_fresh_on_course(bounds: Bounds, offset: Pos, color: u32)
        requires
            bounds.width >= 2,
            bounds.height >= 2,
        ensures
            Self::fresh(bounds, offset, color).on_course(),
    {
    }
}

impl View for Laser {
    type V = LaserView;

    closed spec fn view(&self) -> LaserView {
        LaserView {
            bounds: self.bounds,
            trail: self.body@,
            directions: self.directions,
            offset: self.offset,
            color: self.color,
        }
    }
}

impl Laser {
    /// The trail always has a head and never more than [`TRAIL_CAPACITY`]
    /// positions.
    #[verifier::type_invariant]
    spec fn well_formed(self) -> bool {
        1 <= self.body@.len() <= TRAIL_CAPACITY
    }

    /// A laser of colour `color` inside `bounds`, at the origin of its own
    /// coordinates and heading left and up.
    pub fn new(bounds: Bounds, offset: Pos, color: u32) -> (out: Self)
        ensures
            out@ == LaserView::fresh(bounds, offset, color),
    {
        let body: Vec<Pos> = vec![Pos { x: 0, y: 0 }];
        assert(body@ == seq![Pos { x: 0, y: 0 }]);
        Self { bounds, body, directions: (Direction::Left, Direction::Up), offset, color }
    }

    /// The trail, oldest position first. It is never empty and never longer
    /// than [`TRAIL_CAPACITY`].
    pub fn body(&self) -> (out: &Vec<Pos>)
        ensures
            out@ == self@.trail,
            1 <= out@.len() <= TRAIL_CAPACITY,
    {
        proof {
            use_type_invariant(self);
        }
        &self.body
    }

    /// The horizontal and the vertical heading.
    pub fn directions(&self) -> (out: (Direction, Direction))
        ensures
            out == self@.directions,
    {
        self.directions
    }

    /// The rectangle the laser moves in.
    pub fn bounds(&self) -> (out: Bounds)
        ensures
            out == self@.bounds,
    {
        self.bounds
    }

    /// The offset the laser was made with.
    pub fn offset(&self) -> (out: Pos)
        ensures
            out == self@.offset,
    {
        self.offset
    }

    /// The colour of every pixel of the trail.
    pub fn color(&self) -> (out: u32)
        ensures
            out == self@.color,
    {
        self.color
    }
}

impl Component for Laser {
    /// One pixel of the laser's colour for each position of the trail,
    /// oldest first.
    open spec fn pixels(&self) -> Seq<Pixel> {
        self@.pixels()
    }

    /// A tick takes the laser to `self@.ticked()`.
    open spec fn steps_to(&self, next: &Laser) -> bool {
        next@ == self@.ticked()
    }

    fn render(&self) -> (out: Vec<Pixel>) {
        let mut out: Vec<Pixel> = Vec::new();
        let mut i: usize = 0;
        while i < self.body.len()
            invariant
                i <= self.body@.len(),
                out@ == self@.trail.take(i as int).map_values(
                    |pos: Pos| Pixel { pos, color: self@.color },
                ),
            decreases self.body@.len() - i,
        {
            out.push(Pixel { pos: self.body[i], color: self.color });
            i += 1;
        }
        proof {
            assert(self@.trail.take(self.body@.len() as int) == self@.trail);
        }
        out
    }

    fn tick(&mut self) {
        proof {
            use_type_invariant(&*self);
        }
        let ghost before = self@;
        let head: Pos = self.body[self.body.len() - 1];

        let (horizontal_edge, vertical_edge) = self.bounds.edges(&head);
        if horizontal_edge.is_some() {
            self.directions.0 = self.directions.0.not();
        }
        if vertical_edge.is_some() {
            self.directions.1 = self.directions.1.not();
        }

        let new: Pos = head + self.directions.0 + self.directions.1;
        let mut trail: Vec<Pos> = self.body.clone();
        assert(trail@ == before.trail);
        trail.push(new);
        if trail.len() > TRAIL_CAPACITY {
            trail.remove(0);
        }
        self.body = trail;
    }
}

} // verus!
