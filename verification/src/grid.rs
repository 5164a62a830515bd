//! Row-major addressing of a `width` by `height` grid of cells, shared by
//! textures and the framebuffer.

use vstd::prelude::*;

verus! {

/// The place of cell `(x, y)` in a row-major buffer of rows `width` long.
pub open spec fn cell_index(width: int, x: int, y: int) -> int {
    y * width + x
}

/// Every cell of the grid has a place inside the buffer.
pub proof fn lemma_cell_in_range(width: int, height: int, x: int, y: int)
    requires
        0 <= x < width,
        0 <= y < height,
    ensures
        0 <= y * width <= cell_index(width, x, y) < width * height,
{
    assert(y * width + x < width * height && 0 <= y * width) by (nonlinear_arith)
        requires
            0 <= x < width,
            0 <= y < height,
    ;
}

/// No two cells share a place.
pub proof fn lemma_cell_injective(width: int, x1: int, y1: int, x2: int, y2: int)
    requires
        0 <= x1 < width,
        0 <= x2 < width,
        cell_index(width, x1, y1) == cell_index(width, x2, y2),
    ensures
        x1 == x2,
        y1 == y2,
{
    assert(y1 == y2) by (nonlinear_arith)
        requires
            0 <= x1 < width,
            0 <= x2 < width,
            y1 * width + x1 == y2 * width + x2,
    ;
}

/// Both facts for all cells of a grid at once: each has a place inside the
/// buffer, and no two share one.
pub proof fn lemma_grid(width: int, height: int)
    ensures
        forall|x: int, y: int|
            0 <= x < width && 0 <= y < height ==> 0 <= #[trigger] cell_index(width, x, y) < width
                * height,
        forall|x1: int, y1: int, x2: int, y2: int|
            0 <= x1 < width && 0 <= x2 < width && #[trigger] cell_index(width, x1, y1)
                == #[trigger] cell_index(width, x2, y2) ==> x1 == x2 && y1 == y2,
{
    assert forall|x: int, y: int| 0 <= x < width && 0 <= y < height implies 0
        <= #[trigger] cell_index(width, x, y) < width * height by {
        lemma_cell_in_range(width, height, x, y);
    }
    assert forall|x1: int, y1: int, x2: int, y2: int|
        0 <= x1 < width && 0 <= x2 < width && #[trigger] cell_index(width, x1, y1)
            == #[trigger] cell_index(width, x2, y2) implies x1 == x2 && y1 == y2 by {
        lemma_cell_injective(width, x1, y1, x2, y2);
    }
}

/// The place of cell `(x, y)` of a grid whose cells can be counted.
pub(crate) fn cell(width: usize, height: usize, x: usize, y: usize) -> (k: usize)
    requires
        x < width,
        y < height,
        width * height <= usize::MAX,
    ensures
        k == cell_index(width as int, x as int, y as int),
        k < width * height,
{
    proof {
        lemma_cell_in_range(width as int, height as int, x as int, y as int);
    }
    y * width + x
}

/// Every place inside the buffer belongs to a cell: the one in column
/// `k % width` of row `k / width`.
pub proof fn lemma_cell_of_index(width: int, height: int, k: int)
    requires
        0 <= k < width * height,
        0 < width,
    ensures
        0 <= k % width < width,
        0 <= k / width < height,
        cell_index(width, k % width, k / width) == k,
{
    vstd::arithmetic::div_mod::lemma_fundamental_div_mod(k, width);
    assert(width * (k / width) == (k / width) * width) by (nonlinear_arith);
    assert(0 <= k / width < height) by (nonlinear_arith)
        requires
            0 <= k < width * height,
            0 < width,
            k == width * (k / width) + k % width,
            0 <= k % width < width,
    ;
}

} // verus!
