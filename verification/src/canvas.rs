//! The pixel buffer as a row-major grid, and what it means to paint a
//! body's raster over it.

use vstd::arithmetic::div_mod::{
    lemma_div_pos_is_pos, lemma_fundamental_div_mod, lemma_fundamental_div_mod_converse,
    lemma_mod_bound, lemma_multiply_divide_lt,
};
use vstd::prelude::*;

verus! {

/// Whether `raster` has a cell at column `dx` of row `dy`.
pub open spec fn has_cell(raster: Seq<Seq<u32>>, dx: int, dy: int) -> bool {
    0 <= dy < raster.len() && 0 <= dx < raster[dy].len()
}

/// The colour of a buffer cell that held `under` once the cell `(dx, dy)` of
/// `raster` has been painted over it. A cell outside the raster, or one of
/// colour 0, is transparent and leaves what was there.
pub open spec fn painted_cell(under: u32, raster: Seq<Seq<u32>>, dx: int, dy: int) -> u32 {
    if has_cell(raster, dx, dy) && raster[dy][dx] != 0 {
        raster[dy][dx]
    } else {
        under
    }
}

/// The buffer of rows of `width` cells after `raster` has been painted over
/// it with its top-left corner at column `left` and row `top`. The cell at
/// column `x` of row `y` sits at index `y * width + x`. Whatever part of the
/// raster lies outside the buffer is dropped.
pub open spec fn composited(
    buffer: Seq<u32>,
    width: int,
    raster: Seq<Seq<u32>>,
    left: int,
    top: int,
) -> Seq<u32> {
    Seq::new(
        buffer.len(),
        |i: int| painted_cell(buffer[i], raster, i % width - left, i / width - top),
    )
}

/// The buffer while `raster` is being painted over it row by row: every
/// row above `rows` and the first `cols` cells of row `rows` are done.
pub open spec fn partly_composited(
    buffer: Seq<u32>,
    width: int,
    raster: Seq<Seq<u32>>,
    left: int,
    top: int,
    rows: int,
    cols: int,
) -> Seq<u32> {
    Seq::new(
        buffer.len(),
        |i: int|
            {
                let dx = i % width - left;
                let dy = i / width - top;
                if dy < rows || (dy == rows && dx < cols) {
                    painted_cell(buffer[i], raster, dx, dy)
                } else {
                    buffer[i]
                }
            },
    )
}

/// Column and row of the cell at index `i` of a buffer of `height` rows of
/// `width` cells.
pub proof fn lemma_cell_of_index(i: int, width: int, height: int)
    requires
        0 <= width,
        0 <= height,
        0 <= i < width * height,
    ensures
        0 < width,
        0 <= i % width < width,
        0 <= i / width < height,
        i == (i / width) * width + i % width,
{
    assert(0 < width) by (nonlinear_arith)
        requires
            0 <= width,
            0 <= i < width * height,
    ;
    lemma_mod_bound(i, width);
    lemma_div_pos_is_pos(i, width);
    lemma_multiply_divide_lt(i, width, height);
    lemma_fundamental_div_mod(i, width);
    assert(width * (i / width) == (i / width) * width) by (nonlinear_arith);
}

/// The index of the cell at column `x` of row `y`.
pub proof fn lemma_index_of_cell(x: int, y: int, width: int, height: int)
    requires
        0 <= x < width,
        0 <= y < height,
    ensures
        0 <= y * width + x < width * height,
        (y * width + x) % width == x,
        (y * width + x) / width == y,
{
    assert(0 <= y * width && y * width + width <= width * height) by (nonlinear_arith)
        requires
            0 <= x < width,
            0 <= y < height,
    ;
    lemma_fundamental_div_mod_converse(y * width + x, width, y, x);
}

/// Painting decides each cell of the buffer by itself: the cell at column
/// `x` of row `y` takes the colour of the raster cell that lands on it, or
/// keeps its own. No other raster cell has a say, least of all one that
/// lands outside the buffer.
pub proof fn lemma_composited_cell(
    buffer: Seq<u32>,
    width: int,
    height: int,
    raster: Seq<Seq<u32>>,
    left: int,
    top: int,
    x: int,
    y: int,
)
    requires
        buffer.len() == width * height,
        0 <= x < width,
        0 <= y < height,
    ensures
        composited(buffer, width, raster, left, top).len() == buffer.len(),
        0 <= y * width + x < buffer.len(),
        composited(buffer, width, raster, left, top)[y * width + x] == painted_cell(
            buffer[y * width + x],
            raster,
            x - left,
            y - top,
        ),
{
    lemma_index_of_cell(x, y, width, height);
}

/// A raster none of whose cells lands inside the buffer leaves the buffer
/// as it was.
pub proof fn lemma_raster_outside_is_dropped(
    buffer: Seq<u32>,
    width: int,
    height: int,
    raster: Seq<Seq<u32>>,
    left: int,
    top: int,
)
    requires
        0 <= width,
        0 <= height,
        buffer.len() == width * height,
        forall|dx: int, dy: int| #[trigger]
            has_cell(raster, dx, dy) ==> !(0 <= left + dx < width && 0 <= top + dy < height),
    ensures
        composited(buffer, width, raster, left, top) == buffer,
{
    assert forall|i: int| 0 <= i < buffer.len() implies composited(
        buffer,
        width,
        raster,
        left,
        top,
    )[i] == buffer[i] by {
        lemma_cell_of_index(i, width, height);
        let dx = i % width - left;
        let dy = i / width - top;
        if has_cell(raster, dx, dy) {
            assert(!(0 <= left + dx < width && 0 <= top + dy < height));
        }
    }
    assert(composited(buffer, width, raster, left, top) =~= buffer);
}

} // verus!
