use super::{Pixel, Pos};
use vstd::prelude::*;

verus! {

/// The place in a row-major raster `width` cells wide of the cell in column
/// `x` of row `y`.
pub open spec fn cell_index(width: usize, x: int, y: int) -> int {
    y * width + x
}

/// `buffer` after one write of `color` to the cell at `pos`. A write whose
/// index falls outside the buffer is dropped.
pub open spec fn written(buffer: Seq<u32>, width: usize, pos: Pos, color: u32) -> Seq<u32> {
    let index = cell_index(width, pos.x as int, pos.y as int);
    if index < buffer.len() {
        buffer.update(index, color)
    } else {
        buffer
    }
}

/// The index of the cell that `pixel` lands on when painted at `offset`:
/// that of the cell at the exact sum of the pixel's position and the offset.
pub open spec fn landing(width: usize, offset: Pos, pixel: Pixel) -> int {
    cell_index(width, pixel.pos.x + offset.x, pixel.pos.y + offset.y)
}

/// `buffer` after `pixel`, given in coordinates relative to `offset`, is
/// written to the cell it lands on. A pixel that lands outside the buffer is
/// dropped.
pub open spec fn painted(buffer: Seq<u32>, width: usize, offset: Pos, pixel: Pixel) -> Seq<u32> {
    let index = landing(width, offset, pixel);
    if index < buffer.len() {
        buffer.update(index, pixel.color)
    } else {
        buffer
    }
}

/// `buffer` after every pixel of `pixels` is painted at `offset`, first to
/// last, so that a later pixel overwrites an earlier one on the same cell.
pub open spec fn painted_all(buffer: Seq<u32>, width: usize, offset: Pos, pixels: Seq<Pixel>) -> Seq<
    u32,
>
    decreases pixels.len(),
{
    if pixels.len() == 0 {
        buffer
    } else {
        painted(painted_all(buffer, width, offset, pixels.drop_last()), width, offset, pixels.last())
    }
}

/// `buffer` after every layer of `layers`, a list of pixels with the offset
/// to paint them at, is painted onto it, first to last.
pub open spec fn composed(buffer: Seq<u32>, width: usize, layers: Seq<(Seq<Pixel>, Pos)>) -> Seq<
    u32,
>
    decreases layers.len(),
{
    if layers.len() == 0 {
        buffer
    } else {
        painted_all(
            composed(buffer, width, layers.drop_last()),
            width,
            layers.last().1,
            layers.last().0,
        )
    }
}

/// Painting never changes the size of the buffer.
pub proof fn lemma_painted_all_len(buffer: Seq<u32>, width: usize, offset: Pos, pixels: Seq<Pixel>)
    ensures
        painted_all(buffer, width, offset, pixels).len() == buffer.len(),
    decreases pixels.len(),
{
    if pixels.len() > 0 {
        lemma_painted_all_len(buffer, width, offset, pixels.drop_last());
    }
}

/// Composing never changes the size of the buffer.
pub proof fn lemma_composed_len(buffer: Seq<u32>, width: usize, layers: Seq<(Seq<Pixel>, Pos)>)
    ensures
        composed(buffer, width, layers).len() == buffer.len(),
    decreases layers.len(),
{
    if layers.len() > 0 {
        lemma_composed_len(buffer, width, layers.drop_last());
        lemma_painted_all_len(
            composed(buffer, width, layers.drop_last()),
            width,
            layers.last().1,
            layers.last().0,
        );
    }
}

/// Writing at the saturating sum of a pixel's position and an offset is the
/// same as painting the pixel at the offset: where the sum saturates, the
/// exact index lies outside any buffer, and so does the saturated one.
pub proof fn lemma_written_at_sum_is_painted(
    buffer: Seq<u32>,
    width: usize,
    offset: Pos,
    pixel: Pixel,
)
    requires
        buffer.len() <= usize::MAX,
    ensures
        written(buffer, width, pixel.pos.plus(offset), pixel.color) == painted(
            buffer,
            width,
            offset,
            pixel,
        ),
{
    let x = pixel.pos.x + offset.x;
    let y = pixel.pos.y + offset.y;
    let global = pixel.pos.plus(offset);
    let w = width as int;
    let max = usize::MAX as int;
    if width == 0 {
        assert(y * w == 0) by (nonlinear_arith)
            requires
                w == 0,
        ;
        assert(global.y * w == 0) by (nonlinear_arith)
            requires
                w == 0,
        ;
    } else if y > max {
        assert(y * w >= y) by (nonlinear_arith)
            requires
                w >= 1,
                y >= 0,
        ;
        assert(global.y * w >= global.y) by (nonlinear_arith)
            requires
                w >= 1,
                global.y >= 0,
        ;
    } else {
        assert(y * w >= 0) by (nonlinear_arith)
            requires
                w >= 1,
                y >= 0,
        ;
    }
}

/// No position lands before the start of the buffer.
pub proof fn lemma_landing_not_negative(width: usize, offset: Pos, pixel: Pixel)
    ensures
        landing(width, offset, pixel) >= 0,
{
    let y = pixel.pos.y + offset.y;
    let w = width as int;
    assert(y * w >= 0) by (nonlinear_arith)
        requires
            y >= 0,
            w >= 0,
    ;
}

/// A cell that none of the pixels lands on keeps its colour.
pub proof fn lemma_unpainted_cell_kept(
    buffer: Seq<u32>,
    width: usize,
    offset: Pos,
    pixels: Seq<Pixel>,
    cell: int,
)
    requires
        0 <= cell < buffer.len(),
        forall|i: int| 0 <= i < pixels.len() ==> landing(width, offset, #[trigger] pixels[i]) != cell,
    ensures
        painted_all(buffer, width, offset, pixels)[cell] == buffer[cell],
    decreases pixels.len(),
{
    if pixels.len() > 0 {
        let rest = pixels.drop_last();
        assert forall|i: int| 0 <= i < rest.len() implies landing(
            width,
            offset,
            #[trigger] rest[i],
        ) != cell by {
            assert(rest[i] == pixels[i]);
        }
        lemma_unpainted_cell_kept(buffer, width, offset, rest, cell);
        lemma_painted_all_len(buffer, width, offset, rest);
        lemma_landing_not_negative(width, offset, pixels.last());
        assert(landing(width, offset, pixels[pixels.len() - 1]) != cell);
    }
}

/// Two layers of one pixel each: after composing, the cell the second pixel
/// lands on has the second colour, the cell the first pixel lands on has the
/// first colour unless the second landed on it too, and every other cell is
/// as it was. Each pixel lands on its own position plus the offset of its
/// layer; one that lands outside the buffer changes nothing.
pub proof fn lemma_two_single_pixels(
    buffer: Seq<u32>,
    width: usize,
    first: Pixel,
    first_offset: Pos,
    second: Pixel,
    second_offset: Pos,
)
    ensures
        ({
            let out = composed(
                buffer,
                width,
                seq![(seq![first], first_offset), (seq![second], second_offset)],
            );
            let i = landing(width, first_offset, first);
            let j = landing(width, second_offset, second);
            &&& out.len() == buffer.len()
            &&& 0 <= i
            &&& 0 <= j
            &&& j < buffer.len() ==> out[j] == second.color
            &&& i < buffer.len() && i != j ==> out[i] == first.color
            &&& forall|k: int| 0 <= k < buffer.len() && k != i && k != j ==> out[k] == buffer[k]
        }),
{
    let layers = seq![(seq![first], first_offset), (seq![second], second_offset)];
    let lower = layers.drop_last();
    assert(lower =~= seq![(seq![first], first_offset)]);
    assert(lower.drop_last() =~= Seq::<(Seq<Pixel>, Pos)>::empty());
    assert(seq![first].drop_last() =~= Seq::<Pixel>::empty());
    assert(seq![second].drop_last() =~= Seq::<Pixel>::empty());
    lemma_landing_not_negative(width, first_offset, first);
    lemma_landing_not_negative(width, second_offset, second);
    let after_none = composed(buffer, width, lower.drop_last());
    assert(after_none == buffer);
    let after_first = composed(buffer, width, lower);
    assert(painted_all(after_none, width, first_offset, Seq::<Pixel>::empty()) == after_none);
    assert(after_first == painted(buffer, width, first_offset, first));
    let out = composed(buffer, width, layers);
    assert(painted_all(after_first, width, second_offset, Seq::<Pixel>::empty()) == after_first);
    assert(out == painted(after_first, width, second_offset, second));
}

} // verus!
