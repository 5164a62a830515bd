//! The framebuffer: a row-major grid of packed `0xRRGGBB` pixels, handed to
//! the display as it is.

use crate::grid::{cell, cell_index, lemma_grid};
use vstd::prelude::*;

verus! {

/// One rendered pixel: column, row and packed colour.
pub type PixelColor = (usize, usize, u32);

/// A `width` by `height` grid of pixels with a background colour, which
/// `clear` paints, and a current colour, which `point` paints.
#[derive(Debug)]
pub struct Framebuffer {
    width: usize,
    height: usize,
    buffer: Vec<u32>,
    background_color: u32,
    current_color: u32,
}

/// True when write `w` addresses cell `k` of a `width` by `height` grid.
pub open spec fn addresses(w: PixelColor, width: int, height: int, k: int) -> bool {
    w.0 < width && w.1 < height && cell_index(width, w.0 as int, w.1 as int) == k
}

/// The colour that the last of `writes` to address cell `k` carries, or
/// nothing when none of them addresses it.
pub open spec fn last_write(
    writes: Seq<PixelColor>,
    width: int,
    height: int,
    k: int,
) -> Option<u32>
    decreases writes.len(),
{
    if writes.len() == 0 {
        None
    } else if addresses(writes.last(), width, height, k) {
        Some(writes.last().2)
    } else {
        last_write(writes.drop_last(), width, height, k)
    }
}

/// The pixels of a `width` by `height` grid that held `before`, after
/// `writes` were made in order: each cell holds the colour of the last write
/// that addresses it, and what it held before when none does. Writes outside
/// the grid change nothing.
pub open spec fn painted(
    before: Seq<u32>,
    writes: Seq<PixelColor>,
    width: int,
    height: int,
) -> Seq<u32> {
    Seq::new(
        before.len(),
        |k: int|
            match last_write(writes, width, height, k) {
                Some(c) => c,
                None => before[k],
            },
    )
}

impl Framebuffer {
    #[verifier::type_invariant]
    spec fn well_formed(self) -> bool {
        &&& self.width * self.height <= usize::MAX
        &&& self.buffer.len() == self.width * self.height
    }

    /// Number of pixel columns.
    pub closed spec fn spec_width(self) -> int {
        self.width as int
    }

    /// Number of pixel rows.
    pub closed spec fn spec_height(self) -> int {
        self.height as int
    }

    /// The pixels, row by row from the top.
    pub closed spec fn pixels(self) -> Seq<u32> {
        self.buffer@
    }

    /// The colour that `clear` paints.
    pub closed spec fn background(self) -> u32 {
        self.background_color
    }

    /// The colour that `point` paints.
    pub closed spec fn current(self) -> u32 {
        self.current_color
    }

    /// A framebuffer of the given size, all black, that clears to black and
    /// draws in white.
    pub fn new(width: usize, height: usize) -> (fb: Framebuffer)
        requires
            width * height <= usize::MAX,
        ensures
            fb.spec_width() == width,
            fb.spec_height() == height,
            fb.pixels() == Seq::new((width * height) as nat, |k: int| 0u32),
            fb.background() == 0,
            fb.current() == 0xFFFFFF,
    {
        let buffer: Vec<u32> = vec![0u32; width * height];
        assert(buffer@ =~= Seq::new((width * height) as nat, |k: int| 0u32));
        Framebuffer { width, height, buffer, background_color: 0x000000, current_color: 0xFFFFFF }
    }

    /// Number of pixel columns.
    pub fn width(&self) -> (w: usize)
        ensures
            w == self.spec_width(),
    {
        self.width
    }

    /// Number of pixel rows.
    pub fn height(&self) -> (h: usize)
        ensures
            h == self.spec_height(),
    {
        self.height
    }

    /// The pixels, row by row from the top, one packed colour each.
    pub fn buffer(&self) -> (b: &Vec<u32>)
        ensures
            b@ == self.pixels(),
            b@.len() == self.spec_width() * self.spec_height(),
    {
        proof {
            use_type_invariant(self);
        }
        &self.buffer
    }

    /// Chooses the colour that `clear` paints.
    pub fn set_background_color(&mut self, color: u32)
        ensures
            final(self).background() == color,
            final(self).spec_width() == old(self).spec_width(),
            final(self).spec_height() == old(self).spec_height(),
            final(self).pixels() == old(self).pixels(),
            final(self).current() == old(self).current(),
    {
        proof {
            use_type_invariant(&*self);
        }
        self.background_color = color;
    }

    /// Chooses the colour that `point` paints.
    pub fn set_current_color(&mut self, color: u32)
        ensures
            final(self).current() == color,
            final(self).spec_width() == old(self).spec_width(),
            final(self).spec_height() == old(self).spec_height(),
            final(self).pixels() == old(self).pixels(),
            final(self).background() == old(self).background(),
    {
        proof {
            use_type_invariant(&*self);
        }
        self.current_color = color;
    }

    /// Paints every pixel in the background colour.
    pub fn clear(&mut self)
        ensures
            final(self).pixels() == Seq::new(
                old(self).pixels().len(),
                |k: int| old(self).background(),
            ),
            final(self).spec_width() == old(self).spec_width(),
            final(self).spec_height() == old(self).spec_height(),
            final(self).background() == old(self).background(),
            final(self).current() == old(self).current(),
    {
        proof {
            use_type_invariant(&*self);
        }
        let n: usize = self.buffer.len();
        let mut i: usize = 0;
        while i < n
            invariant
                i <= n,
                n == self.buffer.len() == old(self).buffer.len(),
                self.width == old(self).width,
                self.height == old(self).height,
                self.background_color == old(self).background_color,
                self.current_color == old(self).current_color,
                self.width * self.height <= usize::MAX,
                n == self.width * self.height,
                forall|k: int| 0 <= k < i ==> self.buffer@[k] == self.background_color,
            decreases n - i,
        {
            self.buffer[i] = self.background_color;
            i += 1;
        }
        assert(self.buffer@ =~= Seq::new(
            old(self).pixels().len(),
            |k: int| old(self).background(),
        ));
    }

    /// Paints pixel `(x, y)` in the current colour. A point outside the
    /// grid is not drawn.
    pub fn point(&mut self, x: usize, y: usize)
        ensures
            final(self).pixels() == painted(
                old(self).pixels(),
                seq![(x, y, old(self).current())],
                old(self).spec_width(),
                old(self).spec_height(),
            ),
            final(self).spec_width() == old(self).spec_width(),
            final(self).spec_height() == old(self).spec_height(),
            final(self).background() == old(self).background(),
            final(self).current() == old(self).current(),
    {
        proof {
            use_type_invariant(&*self);
        }
        let ghost writes = seq![(x, y, self.current_color)];
        assert forall|k: int|
            last_write(writes, self.width as int, self.height as int, k) == if addresses(
                writes[0],
                self.width as int,
                self.height as int,
                k,
            ) {
                Some(writes[0].2)
            } else {
                None
            } by {
            reveal_with_fuel(last_write, 2);
        }
        proof {
            lemma_grid(self.width as int, self.height as int);
        }
        if x < self.width && y < self.height {
            let k: usize = cell(self.width, self.height, x, y);
            self.buffer[k] = self.current_color;
        }
        assert(self.buffer@ =~= painted(
            old(self).pixels(),
            writes,
            old(self).spec_width(),
            old(self).spec_height(),
        ));
    }
}

} // verus!
