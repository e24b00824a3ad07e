use crate::screen::{Component, Pixel, Pos};
use rand::rngs::ThreadRng;
use rand::seq::SliceRandom;
use vstd::prelude::*;
use vstd::seq_lib::{
    to_multiset_build, to_multiset_contains, to_multiset_insert, to_multiset_len,
    to_multiset_remove,
};

verus! {

/// The colour of every grain of sand.
pub const SAND_COLOR: u32 = 0xcdd647;

/// The thread-local random number generator of the `rand` crate. Nothing is
/// known of what it holds.
#[verifier::external_type_specification]
#[verifier::external_body]
pub struct ExThreadRng(ThreadRng);

/// `rand::thread_rng` hands out the calling thread's generator. Nothing is
/// claimed of the generator or of the numbers it will give. The crate ends
/// the thread with a panic if the system cannot seed the generator.
pub assume_specification[ rand::thread_rng ]() -> (rng: ThreadRng)
;

/// `SliceRandom::shuffle` of the `rand` crate, on the grains of a sand box.
///
/// The crate swaps elements of the slice in place and does nothing else to
/// it, so what comes back holds the same positions, each as often as
/// before. The order depends on the generator and nothing is claimed of it.
#[verifier::external_body]
fn shuffle(grains: &mut Vec<Pos>, rng: &mut ThreadRng)
    ensures
        final(grains)@.to_multiset() == old(grains)@.to_multiset(),
{
    grains.shuffle(rng);
}

/// Mapping two sequences that hold the same elements equally often gives
/// two sequences that hold the same elements equally often.
pub proof fn lemma_map_keeps_multiset<A, B>(a: Seq<A>, b: Seq<A>, f: spec_fn(A) -> B)
    requires
        a.to_multiset() == b.to_multiset(),
    ensures
        a.map_values(f).to_multiset() == b.map_values(f).to_multiset(),
    decreases a.len(),
{
    to_multiset_len(a);
    to_multiset_len(b);
    if a.len() == 0 {
        assert(a.map_values(f) =~= b.map_values(f));
    } else {
        let x = a.last();
        let shorter_a = a.drop_last();
        assert(a[a.len() - 1] == x);
        to_multiset_contains(a, x);
        to_multiset_contains(b, x);
        let k = choose|k: int| 0 <= k < b.len() && b[k] == x;
        let shorter_b = b.remove(k);
        assert(shorter_a =~= a.remove(a.len() - 1));
        to_multiset_remove(a, a.len() - 1);
        to_multiset_remove(b, k);
        lemma_map_keeps_multiset(shorter_a, shorter_b, f);
        assert(a.map_values(f) =~= shorter_a.map_values(f).push(f(x)));
        assert(b.map_values(f) =~= shorter_b.map_values(f).insert(k, f(x)));
        to_multiset_build(shorter_a.map_values(f), f(x));
        to_multiset_insert(shorter_b.map_values(f), k, f(x));
    }
}

/// Grains of sand in a box `width` cells wide and `height` cells high. On
/// each tick every grain falls into the first free cell among the cell
/// below it, the two cells diagonally below, and the two cells beside it.
#[derive(Debug, Clone)]
pub struct FallingSand {
    sands: Vec<Pos>,
    width: usize,
    height: usize,
}

/// What a [`FallingSand`] holds.
pub struct FallingSandView {
    pub grains: Seq<Pos>,
    pub width: usize,
    pub height: usize,
}

impl FallingSandView {
    /// Whether `pos` is a cell of the box.
    pub open spec fn in_bounds(self, pos: Pos) -> bool {
        pos.x < self.width && pos.y < self.height
    }

    /// Whether a grain may move to `pos`: it is a cell of the box and no
    /// grain is on it.
    pub open spec fn available(self, pos: Pos) -> bool {
        self.in_bounds(pos) && !self.grains.contains(pos)
    }

    /// Whether the cell in column `x` of row `y` is available. Coordinates
    /// left of column 0 or beyond the machine's range are outside the box.
    pub open spec fn free(self, x: int, y: int) -> bool {
        0 <= x < self.width && 0 <= y < self.height && !self.grains.contains(
            Pos { x: x as usize, y: y as usize },
        )
    }

    /// Where the grain at `sand` goes on a tick: to the first free cell
    /// among straight down, down-left, down-right, right and left, in that
    /// order, or nowhere if none is free.
    pub open spec fn destination(self, sand: Pos) -> Pos {
        let x = sand.x as int;
        let y = sand.y as int;
        if self.free(x, y + 1) {
            Pos { x: sand.x, y: (y + 1) as usize }
        } else if self.free(x - 1, y + 1) {
            Pos { x: (x - 1) as usize, y: (y + 1) as usize }
        } else if self.free(x + 1, y + 1) {
            Pos { x: (x + 1) as usize, y: (y + 1) as usize }
        } else if self.free(x + 1, y) {
            Pos { x: (x + 1) as usize, y: sand.y }
        } else if self.free(x - 1, y) {
            Pos { x: (x - 1) as usize, y: sand.y }
        } else {
            sand
        }
    }

    /// The grains after each has gone to its destination, in the order the
    /// grains are listed. Every destination is chosen against the grains as
    /// they are before any of them moves.
    pub open spec fn settled(self) -> Seq<Pos> {
        self.grains.map_values(|sand: Pos| self.destination(sand))
    }

    /// One pixel of [`SAND_COLOR`] for each grain, in the order the grains
    /// are listed.
    pub open spec fn pixels(self) -> Seq<Pixel> {
        self.grains.map_values(|pos: Pos| Pixel { pos, color: SAND_COLOR })
    }

    /// Whether one tick can lead from this state to `next`: the box is the
    /// same, and `next` holds the settled grains in some order.
    pub open spec fn steps_to(self, next: FallingSandView) -> bool {
        &&& next.width == self.width
        &&& next.height == self.height
        &&& next.grains.to_multiset() == self.settled().to_multiset()
    }

    /// The order of the grains does not matter to where a grain goes.
    pub proof fn lemma_destination_ignores_order(self, other: FallingSandView, sand: Pos)
        requires
            other.width == self.width,
            other.height == self.height,
            other.grains.to_multiset() == self.grains.to_multiset(),
        ensures
            other.destination(sand) == self.destination(sand),
    {
        assert forall|pos: Pos| other.grains.contains(pos) == self.grains.contains(pos) by {
            to_multiset_contains(other.grains, pos);
            to_multiset_contains(self.grains, pos);
        }
    }

    /// Settling the same grains in another order gives the same settled
    /// grains, in another order.
    pub proof fn lemma_settled_ignores_order(self, other: FallingSandView)
        requires
            other.width == self.width,
            other.height == self.height,
            other.grains.to_multiset() == self.grains.to_multiset(),
        ensures
            other.settled().to_multiset() == self.settled().to_multiset(),
    {
        let go = |sand: Pos| self.destination(sand);
        assert forall|i: int| 0 <= i < other.grains.len() implies other.settled()[i]
            == other.grains.map_values(go)[i] by {
            self.lemma_destination_ignores_order(other, other.grains[i]);
        }
        assert(other.settled() =~= other.grains.map_values(go));
        lemma_map_keeps_multiset(other.grains, self.grains, go);
    }

    /// A grain whose cell below is free falls straight down, whatever else
    /// is free.
    pub proof fn lemma_falls_straight_when_free(self, sand: Pos)
        requires
            self.free(sand.x as int, sand.y + 1),
        ensures
            self.destination(sand) == (Pos { x: sand.x, y: (sand.y + 1) as usize }),
    {
    }

    /// A grain that moves goes to a neighbouring cell of the box that no
    /// grain held before the tick; a grain inside the box stays inside.
    pub proof fn lemma_moves_to_free_cell(self, sand: Pos)
        ensures
            self.destination(sand) != sand ==> self.available(self.destination(sand)),
            self.in_bounds(sand) ==> self.in_bounds(self.destination(sand)),
            sand.x - 1 <= self.destination(sand).x <= sand.x + 1,
            sand.y <= self.destination(sand).y <= sand.y + 1,
    {
    }

    /// A tick neither makes nor destroys a grain.
    pub proof fn lemma_tick_keeps_count(self, next: FallingSandView)
        requires
            self.steps_to(next),
        ensures
            next.grains.len() == self.grains.len(),
    {
        to_multiset_len(next.grains);
        to_multiset_len(self.settled());
    }

    /// Over any run of ticks the number of grains and the size of the box
    /// stay what they were at the start.
    pub proof fn lemma_run_keeps_count(history: Seq<FallingSandView>, i: int)
        requires
            forall|k: int| 0 <= k < history.len() - 1 ==> (#[trigger] history[k]).steps_to(history[k + 1]),
            0 <= i < history.len(),
        ensures
            history[i].grains.len() == history[0].grains.len(),
            history[i].width == history[0].width,
            history[i].height == history[0].height,
        decreases i,
    {
        if i > 0 {
            Self::lemma_run_keeps_count(history, i - 1);
            history[i - 1].lemma_tick_keeps_count(history[i]);
        }
    }

    /// After a tick no two grains share a cell exactly when no two grains
    /// headed for the same cell. Two grains that shared a cell before the
    /// tick head for the same cell, and so share one after it.
    pub proof fn lemma_grains_apart_after_tick(self, next: FallingSandView)
        requires
            self.steps_to(next),
        ensures
            next.grains.no_duplicates() <==> (forall|i: int, j: int|
                0 <= i < j < self.grains.len() ==> self.destination(#[trigger] self.grains[i])
                    != self.destination(#[trigger] self.grains[j])),
    {
        let settled = self.settled();
        let apart = forall|i: int, j: int|
            0 <= i < j < self.grains.len() ==> self.destination(#[trigger] self.grains[i])
                != self.destination(#[trigger] self.grains[j]);
        if apart {
            assert forall|i: int, j: int|
                0 <= i < settled.len() && 0 <= j < settled.len() && i != j implies settled[i]
                != settled[j] by {
                if i < j {
                    assert(self.destination(self.grains[i]) != self.destination(self.grains[j]));
                } else {
                    assert(self.destination(self.grains[j]) != self.destination(self.grains[i]));
                }
            }
            settled.lemma_multiset_has_no_duplicates();
            next.grains.lemma_multiset_has_no_duplicates_conv();
        }
        if next.grains.no_duplicates() {
            next.grains.lemma_multiset_has_no_duplicates();
            settled.lemma_multiset_has_no_duplicates_conv();
            assert forall|i: int, j: int| 0 <= i < j < self.grains.len() implies self.destination(
                #[trigger] self.grains[i],
            ) != self.destination(#[trigger] self.grains[j]) by {
                assert(settled[i] != settled[j]);
            }
        }
    }
}

impl View for FallingSand {
    type V = FallingSandView;

    closed spec fn view(&self) -> FallingSandView {
        FallingSandView { grains: self.sands@, width: self.width, height: self.height }
    }
}

impl FallingSand {
    /// A box `width` by `height` holding the grains `sands`.
    pub fn new(sands: Vec<Pos>, width: usize, height: usize) -> (out: Self)
        ensures
            out@ == (FallingSandView { grains: sands@, width, height }),
    {
        Self { sands, width, height }
    }

    /// A box `width` by `height` with `num_sands` grains laid along the top
    /// row from the left, starting again at the left each time the row is
    /// full. A box of no width gets no grains.
    pub fn new_num_sands(num_sands: usize, width: usize, height: usize) -> (out: Self)
        ensures
            out@.width == width,
            out@.height == height,
            out@.grains == if width == 0 {
                Seq::<Pos>::empty()
            } else {
                Seq::new(num_sands as nat, |i: int| Pos { x: (i % width as int) as usize, y: 0 })
            },
    {
        let mut sands: Vec<Pos> = Vec::new();
        if width > 0 {
            let mut i: usize = 0;
            while i < num_sands
                invariant
                    width > 0,
                    i <= num_sands,
                    sands@ == Seq::new(
                        i as nat,
                        |k: int| Pos { x: (k % width as int) as usize, y: 0 },
                    ),
                decreases num_sands - i,
            {
                sands.push(Pos { x: i % width, y: 0 });
                i += 1;
            }
        }
        Self { sands, width, height }
    }

    /// The grains, in the order they are held.
    pub fn sands(&self) -> (out: &Vec<Pos>)
        ensures
            out@ == self@.grains,
    {
        &self.sands
    }

    /// The width of the box.
    pub fn width(&self) -> (out: usize)
        ensures
            out == self@.width,
    {
        self.width
    }

    /// The height of the box.
    pub fn height(&self) -> (out: usize)
        ensures
            out == self@.height,
    {
        self.height
    }

    /// Whether a grain may move to `pos`.
    #[must_use]
    pub fn is_available(&self, pos: Pos) -> (out: bool)
        ensures
            out == self@.available(pos),
    {
        if !self.is_in_bounds(pos) {
            return false;
        }
        let mut i: usize = 0;
        while i < self.sands.len()
            invariant
                i <= self.sands@.len(),
                forall|k: int| 0 <= k < i ==> self.sands@[k] != pos,
            decreases self.sands@.len() - i,
        {
            if self.sands[i] == pos {
                return false;
            }
            i += 1;
        }
        true
    }

    /// Whether `pos` is a cell of the box.
    #[must_use]
    pub fn is_in_bounds(&self, pos: Pos) -> (out: bool)
        ensures
            out == self@.in_bounds(pos),
    {
        let Pos { x, y } = pos;
        x < self.width && y < self.height
    }

    /// The cell in column `x` of row `y`, if both coordinates exist and the
    /// cell is available.
    fn candidate(&self, x: Option<usize>, y: Option<usize>) -> (out: Option<Pos>)
        ensures
            out == match (x, y) {
                (Some(x), Some(y)) => if self@.free(x as int, y as int) {
                    Some(Pos { x, y })
                } else {
                    None
                },
                _ => None,
            },
    {
        match (x, y) {
            (Some(x), Some(y)) => {
                let pos = Pos { x, y };
                if self.is_available(pos) {
                    Some(pos)
                } else {
                    None
                }
            },
            _ => None,
        }
    }

    /// Where the grain at `sand` goes on a tick.
    pub fn sand_move(&self, sand: &Pos) -> (out: Pos)
        ensures
            out == self@.destination(*sand),
    {
        let left: Option<usize> = sand.x.checked_sub(1);
        let right: Option<usize> = sand.x.checked_add(1);
        let below: Option<usize> = sand.y.checked_add(1);
        let here: Option<usize> = Some(sand.y);

        if let Some(pos) = self.candidate(Some(sand.x), below) {
            pos
        } else if let Some(pos) = self.candidate(left, below) {
            pos
        } else if let Some(pos) = self.candidate(right, below) {
            pos
        } else if let Some(pos) = self.candidate(right, here) {
            pos
        } else if let Some(pos) = self.candidate(left, here) {
            pos
        } else {
            *sand
        }
    }

    /// Moves every grain to its destination, keeping the order in which the
    /// grains are held. Every destination is chosen against the grains as
    /// they are before the call.
    pub fn settle(&mut self)
        ensures
            final(self)@ == (FallingSandView { grains: old(self)@.settled(), ..old(self)@ }),
    {
        let mut new_sands: Vec<Pos> = Vec::new();
        let mut i: usize = 0;
        while i < self.sands.len()
            invariant
                i <= self.sands@.len(),
                self@ == old(self)@,
                new_sands@ == self@.settled().take(i as int),
            decreases self.sands@.len() - i,
        {
            let moved: Pos = self.sand_move(&self.sands[i]);
            new_sands.push(moved);
            assert(self@.settled().take(i + 1) == self@.settled().take(i as int).push(moved));
            i += 1;
        }
        assert(self@.settled().take(self.sands@.len() as int) == self@.settled());
        self.sands = new_sands;
    }
}

impl Component for FallingSand {
    /// One pixel of [`SAND_COLOR`] for each grain, in the order the grains
    /// are held.
    open spec fn pixels(&self) -> Seq<Pixel> {
        self@.pixels()
    }

    /// A tick takes the grains to their destinations and may leave them in
    /// any order.
    open spec fn steps_to(&self, next: &FallingSand) -> bool {
        self@.steps_to(next@)
    }

    fn render(&self) -> (out: Vec<Pixel>) {
        let mut out: Vec<Pixel> = Vec::new();
        let mut i: usize = 0;
        while i < self.sands.len()
            invariant
                i <= self.sands@.len(),
                out@ == self@.grains.take(i as int).map_values(
                    |pos: Pos| Pixel { pos, color: SAND_COLOR },
                ),
            decreases self.sands@.len() - i,
        {
            out.push(Pixel { pos: self.sands[i], color: SAND_COLOR });
            i += 1;
        }
        proof {
            assert(self@.grains.take(self.sands@.len() as int) == self@.grains);
        }
        out
    }

    /// Shuffles the grains, so that no grain is favoured by its place in
    /// the list, and settles them.
    fn tick(&mut self) {
        let ghost before = self@;
        let mut rng = rand::thread_rng();
        shuffle(&mut self.sands, &mut rng);
        proof {
            before.lemma_settled_ignores_order(self@);
        }
        self.settle();
    }
}

} // verus!
