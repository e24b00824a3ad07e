//! The raster, the positions and colours written to it, and the engine that
//! composes components onto it.
use std::convert::AsRef;
use std::ops::{Deref, DerefMut};
use vstd::prelude::*;

mod bounds;
mod paint;
mod pixel;
mod pos;

pub use bounds::Bounds;
pub use paint::{
    cell_index, composed, landing, lemma_composed_len, lemma_landing_not_negative,
    lemma_painted_all_len, lemma_two_single_pixels, lemma_unpainted_cell_kept,
    lemma_written_at_sum_is_painted, painted, painted_all, written,
};
pub use pixel::{
    channel_of, lemma_channel_fits, lemma_set_channel_isolated, lemma_set_get_round_trip,
    with_channel, Channel, Pixel, RgbaChannel,
};
pub use pos::{saturating_difference, saturating_sum, Pos};

verus! {

/// Something that can be shown on a screen: it reports the pixels it shows,
/// in its own coordinates, and advances its own state one tick at a time.
pub trait Component: Sized {
    /// The pixels the component shows in its present state, in the order in
    /// which they are written.
    spec fn pixels(&self) -> Seq<Pixel>;

    /// Whether one tick can take the component from this state to `next`.
    spec fn steps_to(&self, next: &Self) -> bool;

    /// Reports the pixels the component shows, in its own coordinates.
    fn render(&self) -> (out: Vec<Pixel>)
        ensures
            out@ == self.pixels(),
    ;

    /// Advances the component by one tick.
    fn tick(&mut self)
        ensures
            old(self).steps_to(final(self)),
    ;
}

/// A raster together with the components shown on it.
///
/// The buffer is a flat, row-major array of packed colours: the cell at
/// `(x, y)` is element `y * width + x`. Each component comes with the offset
/// that turns its own coordinates into the screen's.
#[derive(Debug)]
pub struct Screen<C: Component> {
    buffer: Vec<u32>,
    width: usize,
    height: usize,
    children: Vec<(C, Pos)>,
}

/// What a [`Screen`] holds, as mathematical values.
pub struct ScreenView<C> {
    pub buffer: Seq<u32>,
    pub width: usize,
    pub height: usize,
    pub children: Seq<(C, Pos)>,
}

impl<C: Component> ScreenView<C> {
    /// The index in the buffer of the cell at `pos`.
    pub open spec fn index_of(self, pos: Pos) -> int {
        cell_index(self.width, pos.x as int, pos.y as int)
    }

    /// What each child shows and where, in registration order.
    pub open spec fn layers(self) -> Seq<(Seq<Pixel>, Pos)> {
        Seq::new(self.children.len(), |i: int| (self.children[i].0.pixels(), self.children[i].1))
    }
}

impl<C: Component> View for Screen<C> {
    type V = ScreenView<C>;

    closed spec fn view(&self) -> ScreenView<C> {
        ScreenView {
            buffer: self.buffer@,
            width: self.width,
            height: self.height,
            children: self.children@,
        }
    }
}

impl<C: Component> Deref for Screen<C> {
    type Target = Vec<u32>;

    /// The buffer, read-only.
    fn deref(&self) -> (out: &Vec<u32>)
        ensures
            out@ == self@.buffer,
    {
        &self.buffer
    }
}

impl<C: Component> DerefMut for Screen<C> {
    /// The buffer, open to any change.
    fn deref_mut(&mut self) -> (out: &mut Vec<u32>)
        ensures
            out@ == old(self)@.buffer,
            final(self)@ == (ScreenView { buffer: final(out)@, ..old(self)@ }),
    {
        &mut self.buffer
    }
}

impl<C: Component> AsRef<[u32]> for Screen<C> {
    /// The buffer as a slice, for handing to a display surface.
    fn as_ref(&self) -> (out: &[u32])
        ensures
            out@ == self@.buffer,
    {
        self.buffer.as_slice()
    }
}

impl<C: Component> Screen<C> {
    /// A screen over `buffer`, read as rows of `width` cells, showing
    /// `children` in the order given.
    pub fn new(buffer: Vec<u32>, width: usize, height: usize, children: Vec<(C, Pos)>) -> (out:
        Self)
        ensures
            out@.buffer == buffer@,
            out@.width == width,
            out@.height == height,
            out@.children == children@,
    {
        Self { buffer, width, height, children }
    }

    /// The number of cells in a row.
    pub fn width(&self) -> (out: usize)
        ensures
            out == self@.width,
    {
        self.width
    }

    /// The number of rows the screen was made for.
    pub fn height(&self) -> (out: usize)
        ensures
            out == self@.height,
    {
        self.height
    }

    /// The components on the screen with their offsets, in registration
    /// order.
    pub fn children(&self) -> (out: &Vec<(C, Pos)>)
        ensures
            out@ == self@.children,
    {
        &self.children
    }

    /// The index of the cell at `pos`, if the buffer has such an element.
    fn index(&self, pos: Pos) -> (out: Option<usize>)
        ensures
            match out {
                Some(index) => index == self@.index_of(pos) && index < self@.buffer.len(),
                None => self@.index_of(pos) >= self@.buffer.len(),
            },
    {
        let len: usize = self.buffer.len();
        match pos.y.checked_mul(self.width) {
            Some(row) => match row.checked_add(pos.x) {
                Some(index) => if index < len {
                    Some(index)
                } else {
                    None
                },
                None => None,
            },
            None => None,
        }
    }

    /// The colour of the cell at `pos`, or `None` if the index of that cell
    /// lies outside the buffer.
    #[must_use]
    pub fn get(&self, pos: Pos) -> (out: Option<&u32>)
        ensures
            match out {
                Some(color) => self@.index_of(pos) < self@.buffer.len() && *color
                    == self@.buffer[self@.index_of(pos)],
                None => self@.index_of(pos) >= self@.buffer.len(),
            },
    {
        match self.index(pos) {
            Some(index) => Some(&self.buffer[index]),
            None => None,
        }
    }

    /// A handle on the cell at `pos` through which it can be overwritten, or
    /// `None` if the index of that cell lies outside the buffer. Nothing but
    /// that one cell can change through the handle.
    #[must_use]
    pub fn get_mut(&mut self, pos: Pos) -> (out: Option<&mut u32>)
        ensures
            match out {
                Some(color) => old(self)@.index_of(pos) < old(self)@.buffer.len() && *color == old(
                    self,
                )@.buffer[old(self)@.index_of(pos)] && final(self)@ == (ScreenView {
                    buffer: old(self)@.buffer.update(old(self)@.index_of(pos), *final(color)),
                    ..old(self)@
                }),
                None => old(self)@.index_of(pos) >= old(self)@.buffer.len() && final(self)@ == old(
                    self,
                )@,
            },
    {
        match self.index(pos) {
            Some(index) => Some(&mut self.buffer[index]),
            None => None,
        }
    }

    /// Writes `new` to the cell at `pos` and returns `true`, or, if the index
    /// of that cell lies outside the buffer, changes nothing and returns
    /// `false`.
    pub fn set(&mut self, pos: Pos, new: u32) -> (out: bool)
        ensures
            out == (old(self)@.index_of(pos) < old(self)@.buffer.len()),
            final(self)@ == (ScreenView {
                buffer: written(old(self)@.buffer, old(self)@.width, pos, new),
                ..old(self)@
            }),
    {
        if let Some(pixel) = self.get_mut(pos) {
            *pixel = new;
            true
        } else {
            false
        }
    }

    /// Writes the colour of `pixel` to the cell at its position, as
    /// [`Screen::set`] does.
    pub fn set_pixel(&mut self, pixel: Pixel) -> (out: bool)
        ensures
            out == (old(self)@.index_of(pixel.pos) < old(self)@.buffer.len()),
            final(self)@ == (ScreenView {
                buffer: written(old(self)@.buffer, old(self)@.width, pixel.pos, pixel.color),
                ..old(self)@
            }),
    {
        let Pixel { pos, color } = pixel;
        self.set(pos, color)
    }
}

impl<C: Component> Screen<C> {
    /// Paints what every child shows onto the buffer.
    ///
    /// Children are taken in registration order and the pixels of each in the
    /// order its `render` gives them. A pixel lands on the cell at its own
    /// position plus the child's offset; a pixel whose index lies outside the
    /// buffer is dropped, and on a shared cell the last writer wins. No child
    /// changes.
    pub fn render(&mut self)
        ensures
            final(self)@ == (ScreenView {
                buffer: composed(old(self)@.buffer, old(self)@.width, old(self)@.layers()),
                ..old(self)@
            }),
    {
        let ghost before = self@;
        let ghost layers = self@.layers();
        let count: usize = self.children.len();
        let mut i: usize = 0;
        while i < count
            invariant
                i <= count,
                count == before.children.len(),
                layers == before.layers(),
                self@ == (ScreenView {
                    buffer: composed(before.buffer, before.width, layers.take(i as int)),
                    ..before
                }),
            decreases count - i,
        {
            let pixels: Vec<Pixel> = self.children[i].0.render();
            let offset: Pos = self.children[i].1;
            let ghost base = self@.buffer;
            let mut j: usize = 0;
            while j < pixels.len()
                invariant
                    j <= pixels@.len(),
                    self@ == (ScreenView {
                        buffer: painted_all(base, before.width, offset, pixels@.take(j as int)),
                        ..before
                    }),
                decreases pixels@.len() - j,
            {
                let pixel: Pixel = pixels[j];
                proof {
                    assert(self@.buffer.len() == self.buffer.len());
                    lemma_written_at_sum_is_painted(self@.buffer, before.width, offset, pixel);
                    assert(pixels@.take(j + 1).drop_last() == pixels@.take(j as int));
                }
                self.set_pixel(Pixel { color: pixel.color, pos: pixel.pos + offset });
                j += 1;
            }
            proof {
                assert(pixels@.take(pixels@.len() as int) == pixels@);
                assert(layers.take(i + 1).drop_last() == layers.take(i as int));
                assert(layers.take(i + 1).last() == (pixels@, offset));
            }
            i += 1;
        }
        proof {
            assert(layers.take(count as int) == layers);
        }
    }

    /// Ticks every child once, in registration order. The buffer and the
    /// offsets stay as they are.
    pub fn tick(&mut self)
        ensures
            final(self)@.buffer == old(self)@.buffer,
            final(self)@.width == old(self)@.width,
            final(self)@.height == old(self)@.height,
            final(self)@.children.len() == old(self)@.children.len(),
            forall|i: int|
                0 <= i < old(self)@.children.len() ==> (#[trigger] old(self)@.children[i]).0.steps_to(
                    &final(self)@.children[i].0,
                ) && final(self)@.children[i].1 == old(self)@.children[i].1,
    {
        let ghost before = self@;
        let count: usize = self.children.len();
        let mut i: usize = 0;
        while i < count
            invariant
                i <= count,
                count == before.children.len(),
                self@.children.len() == count,
                self@.buffer == before.buffer,
                self@.width == before.width,
                self@.height == before.height,
                forall|k: int|
                    0 <= k < i ==> (#[trigger] before.children[k]).0.steps_to(&self@.children[k].0)
                        && self@.children[k].1 == before.children[k].1,
                forall|k: int| i <= k < count ==> self@.children[k] == #[trigger] before.children[k],
            decreases count - i,
        {
            let child: &mut (C, Pos) = &mut self.children[i];
            child.0.tick();
            i += 1;
        }
    }
}

} // verus!
