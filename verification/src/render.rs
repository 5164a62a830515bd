//! The frame: which pixels there are to shade, and how the shaded pixels
//! reach the framebuffer. Shading itself is the host's work; each pixel is
//! shaded on its own, in any order or all at once.

use crate::framebuffer::{addresses, last_write, painted, Framebuffer, PixelColor};
use crate::grid::{cell_index, lemma_cell_of_index, lemma_grid};
use vstd::prelude::*;

verus! {

/// The row-major list of the cells of a `width` by `height` grid.
pub open spec fn grid_cells(width: int, height: int) -> Seq<(usize, usize)> {
    Seq::new(
        (width * height) as nat,
        |k: int| ((k % width) as usize, (k / width) as usize),
    )
}

/// True when no two of `writes` address the same cell.
pub open spec fn disjoint_writes(writes: Seq<PixelColor>, width: int, height: int) -> bool {
    forall|i: int, j: int, k: int|
        0 <= i < j < writes.len() && #[trigger] addresses(writes[i], width, height, k)
            ==> !#[trigger] addresses(writes[j], width, height, k)
}

/// The writes that put `colors`, given row by row, on a `width` by `height`
/// grid.
pub open spec fn frame_writes(colors: Seq<u32>, width: int, height: int) -> Seq<PixelColor> {
    Seq::new(
        colors.len(),
        |k: int| (grid_cells(width, height)[k].0, grid_cells(width, height)[k].1, colors[k]),
    )
}

/// The cells of a `width` by `height` frame, row by row from the top and
/// from left to right in each row.
pub fn pixel_grid(width: usize, height: usize) -> (cells: Vec<(usize, usize)>)
    requires
        width * height <= usize::MAX,
    ensures
        cells@ == grid_cells(width as int, height as int),
{
    let ghost w = width as int;
    let ghost h = height as int;
    let mut cells: Vec<(usize, usize)> = Vec::new();
    let mut y: usize = 0;
    while y < height
        invariant
            y <= height,
            w == width,
            h == height,
            w * h <= usize::MAX,
            cells.len() == y * w,
            cells.len() <= w * h,
            forall|k: int| 0 <= k < cells.len() ==> cells@[k] == grid_cells(w, h)[k],
        decreases height - y,
    {
        let mut x: usize = 0;
        while x < width
            invariant
                y < height,
                x <= width,
                w == width,
                h == height,
                w * h <= usize::MAX,
                cells.len() == y * w + x,
                cells.len() <= w * h,
                forall|k: int| 0 <= k < cells.len() ==> cells@[k] == grid_cells(w, h)[k],
            decreases width - x,
        {
            proof {
                // The next place in the list is that of cell `(x, y)`, and of
                // no other cell.
                let k: int = cells.len() as int;
                lemma_grid(w, h);
                assert(cell_index(w, x as int, y as int) == k);
                lemma_cell_of_index(w, h, k);
                assert(cell_index(w, k % w, k / w) == cell_index(w, x as int, y as int));
            }
            cells.push((x, y));
            x += 1;
        }
        assert((y + 1) * w == y * w + w) by (nonlinear_arith);
        y += 1;
    }
    assert(cells.len() == w * h) by (nonlinear_arith)
        requires
            cells.len() == y * w,
            y == h,
    ;
    assert(cells@ =~= grid_cells(w, h));
    cells
}

/// Writes shaded pixels into the framebuffer, in the order given: each one
/// becomes the current colour and is drawn at its place. Pixels outside the
/// frame are skipped.
pub fn render(framebuffer: &mut Framebuffer, pixel_colors: &Vec<PixelColor>)
    ensures
        final(framebuffer).pixels() == painted(
            old(framebuffer).pixels(),
            pixel_colors@,
            old(framebuffer).spec_width(),
            old(framebuffer).spec_height(),
        ),
        final(framebuffer).current() == if pixel_colors.len() > 0 {
            pixel_colors@.last().2
        } else {
            old(framebuffer).current()
        },
        final(framebuffer).spec_width() == old(framebuffer).spec_width(),
        final(framebuffer).spec_height() == old(framebuffer).spec_height(),
        final(framebuffer).background() == old(framebuffer).background(),
{
    let ghost before = framebuffer.pixels();
    let ghost w = framebuffer.spec_width();
    let ghost h = framebuffer.spec_height();
    let mut i: usize = 0;
    proof {
        lemma_painted_none(before, w, h);
    }
    while i < pixel_colors.len()
        invariant
            i <= pixel_colors.len(),
            framebuffer.spec_width() == w == old(framebuffer).spec_width(),
            framebuffer.spec_height() == h == old(framebuffer).spec_height(),
            framebuffer.background() == old(framebuffer).background(),
            before == old(framebuffer).pixels(),
            framebuffer.pixels() == painted(before, pixel_colors@.take(i as int), w, h),
            framebuffer.current() == if i > 0 {
                pixel_colors@[i - 1].2
            } else {
                old(framebuffer).current()
            },
        decreases pixel_colors.len() - i,
    {
        let (x, y, color) = pixel_colors[i];
        framebuffer.set_current_color(color);
        framebuffer.point(x, y);
        proof {
            lemma_painted_push(before, pixel_colors@.take(i as int), (x, y, color), w, h);
            assert(pixel_colors@.take(i as int).push((x, y, color)) =~= pixel_colors@.take(
                i as int + 1,
            ));
        }
        i += 1;
    }
    assert(pixel_colors@.take(i as int) =~= pixel_colors@);
}

/// No write, no change.
pub proof fn lemma_painted_none(before: Seq<u32>, width: int, height: int)
    ensures
        painted(before, Seq::empty(), width, height) == before,
{
    assert(painted(before, Seq::empty(), width, height) =~= before);
}

/// Painting write after write is painting all of them in order.
pub proof fn lemma_painted_push(
    before: Seq<u32>,
    writes: Seq<PixelColor>,
    next: PixelColor,
    width: int,
    height: int,
)
    ensures
        painted(painted(before, writes, width, height), seq![next], width, height) == painted(
            before,
            writes.push(next),
            width,
            height,
        ),
{
    let all = writes.push(next);
    assert(all.drop_last() =~= writes);
    assert(all.last() == next);
    assert forall|k: int|
        last_write(seq![next], width, height, k) == if addresses(next, width, height, k) {
            Some(next.2)
        } else {
            None
        } by {
        reveal_with_fuel(last_write, 2);
    }
    assert(painted(painted(before, writes, width, height), seq![next], width, height) =~= painted(
        before,
        all,
        width,
        height,
    ));
}

/// A cell that no write addresses is left alone, and a cell that one of a
/// set of disjoint writes addresses holds the colour of that write.
pub proof fn lemma_disjoint_write(writes: Seq<PixelColor>, width: int, height: int, i: int, k: int)
    requires
        disjoint_writes(writes, width, height),
        0 <= i < writes.len(),
        addresses(writes[i], width, height, k),
    ensures
        last_write(writes, width, height, k) == Some(writes[i].2),
    decreases writes.len(),
{
    if i == writes.len() - 1 {
    } else {
        assert(!addresses(writes.last(), width, height, k));
        let rest = writes.drop_last();
        assert(disjoint_writes(rest, width, height)) by {
            assert forall|a: int, b: int, c: int|
                0 <= a < b < rest.len() && #[trigger] addresses(rest[a], width, height, c)
                implies !#[trigger] addresses(rest[b], width, height, c) by {
                assert(rest[a] == writes[a] && rest[b] == writes[b]);
            }
        }
        lemma_disjoint_write(rest, width, height, i, k);
    }
}

/// A cell that no write addresses keeps no colour of theirs.
pub proof fn lemma_no_write(writes: Seq<PixelColor>, width: int, height: int, k: int)
    requires
        forall|i: int| 0 <= i < writes.len() ==> !addresses(#[trigger] writes[i], width, height, k),
    ensures
        last_write(writes, width, height, k) is None,
    decreases writes.len(),
{
    if writes.len() > 0 {
        let rest = writes.drop_last();
        assert forall|i: int| 0 <= i < rest.len() implies !addresses(
            #[trigger] rest[i],
            width,
            height,
            k,
        ) by {
            assert(rest[i] == writes[i]);
        }
        lemma_no_write(rest, width, height, k);
    }
}

/// Pixels are independent: two lists of disjoint writes that hold the same
/// writes, in whatever order, paint the same picture.
pub proof fn lemma_order_insensitive(
    before: Seq<u32>,
    first: Seq<PixelColor>,
    second: Seq<PixelColor>,
    width: int,
    height: int,
)
    requires
        disjoint_writes(first, width, height),
        disjoint_writes(second, width, height),
        forall|w: PixelColor| first.contains(w) <==> second.contains(w),
    ensures
        painted(before, first, width, height) == painted(before, second, width, height),
{
    assert forall|k: int|
        last_write(first, width, height, k) == last_write(second, width, height, k) by {
        lemma_same_last_write(first, second, width, height, k);
    }
    assert(painted(before, first, width, height) =~= painted(before, second, width, height));
}

proof fn lemma_same_last_write(
    first: Seq<PixelColor>,
    second: Seq<PixelColor>,
    width: int,
    height: int,
    k: int,
)
    requires
        disjoint_writes(first, width, height),
        disjoint_writes(second, width, height),
        forall|w: PixelColor| first.contains(w) <==> second.contains(w),
    ensures
        last_write(first, width, height, k) == last_write(second, width, height, k),
{
    if exists|i: int| 0 <= i < first.len() && addresses(#[trigger] first[i], width, height, k) {
        let i = choose|i: int|
            0 <= i < first.len() && addresses(#[trigger] first[i], width, height, k);
        assert(first.contains(first[i]));
        assert(second.contains(first[i]));
        let j = choose|j: int| 0 <= j < second.len() && second[j] == first[i];
        lemma_disjoint_write(first, width, height, i, k);
        lemma_disjoint_write(second, width, height, j, k);
    } else {
        lemma_no_write(first, width, height, k);
        assert forall|j: int| 0 <= j < second.len() implies !addresses(
            #[trigger] second[j],
            width,
            height,
            k,
        ) by {
            assert(second.contains(second[j]));
            assert(first.contains(second[j]));
            let i = choose|i: int| 0 <= i < first.len() && first[i] == second[j];
            assert(!addresses(first[i], width, height, k));
        }
        lemma_no_write(second, width, height, k);
    }
}

/// Rendering one colour for every cell of the frame, in row-major order,
/// leaves the framebuffer holding exactly those colours.
pub proof fn lemma_full_frame(before: Seq<u32>, colors: Seq<u32>, width: int, height: int)
    requires
        0 <= width <= usize::MAX,
        0 <= height <= usize::MAX,
        before.len() == width * height,
        colors.len() == width * height,
    ensures
        disjoint_writes(frame_writes(colors, width, height), width, height),
        painted(before, frame_writes(colors, width, height), width, height) == colors,
{
    let writes = frame_writes(colors, width, height);
    lemma_grid(width, height);
    assert forall|i: int| 0 <= i < writes.len() implies addresses(
        #[trigger] writes[i],
        width,
        height,
        i,
    ) by {
        assert(width > 0) by (nonlinear_arith)
            requires
                0 <= i < width * height,
                0 <= width,
                0 <= height,
        ;
        lemma_cell_of_index(width, height, i);
    }
    assert forall|i: int, j: int, k: int|
        0 <= i < j < writes.len() && #[trigger] addresses(
            writes[i],
            width,
            height,
            k,
        ) implies !#[trigger] addresses(writes[j], width, height, k) by {
        assert(addresses(writes[i], width, height, i));
        assert(addresses(writes[j], width, height, j));
    }
    assert forall|k: int| 0 <= k < colors.len() implies last_write(writes, width, height, k)
        == Some(colors[k]) by {
        assert(addresses(writes[k], width, height, k));
        lemma_disjoint_write(writes, width, height, k, k);
    }
    assert(painted(before, writes, width, height) =~= colors);
}

} // verus!
