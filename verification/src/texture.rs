//! Textures: a decoded image, copied once into a row-major colour buffer and
//! read many times.

use crate::color::Color;
use crate::grid::{cell, cell_index, lemma_grid};
use crate::scalar::{Scalar, ONE_BITS, ZERO_BITS};
use image::DynamicImage;
use image::GenericImageView;
use image::Pixel;
use vstd::prelude::*;

verus! {

/// `image::DynamicImage`: a decoded image in any of the pixel formats that
/// the `image` crate knows. Nothing is assumed of what is inside one; it is
/// read through the three functions below only.
#[verifier::external_type_specification]
#[verifier::external_body]
pub struct ExDynamicImage(DynamicImage);

/// Width and height of a decoded image, in pixels, as `DynamicImage::width`
/// and `DynamicImage::height` report them.
pub uninterp spec fn image_size(img: DynamicImage) -> (nat, nat);

/// The red, green and blue channels, eight bits each, of every pixel of a
/// decoded image, keyed by `(x, y)` with `(0, 0)` in the top left corner: what
/// `get_pixel(x, y).to_rgb()` gives for it. An image is not changed once it
/// is decoded, so this is a property of the image alone.
pub uninterp spec fn image_pixels(img: DynamicImage) -> Map<(nat, nat), (u8, u8, u8)>;

/// `DynamicImage::width`: the number of pixel columns of the image. The
/// contract gives the number a name and claims nothing else of it.
#[verifier::external_body]
fn image_width(img: &DynamicImage) -> (w: u32)
    ensures
        w == image_size(*img).0,
{
    img.width()
}

/// `DynamicImage::height`: the number of pixel rows of the image. The
/// contract gives the number a name and claims nothing else of it.
#[verifier::external_body]
fn image_height(img: &DynamicImage) -> (h: u32)
    ensures
        h == image_size(*img).1,
{
    img.height()
}

/// `GenericImageView::get_pixel` followed by `Pixel::to_rgb`: the pixel at
/// `(x, y)`, whatever the image's own pixel format, as three 8-bit channels.
/// The contract claims only that the same pixel of the same image always
/// reads the same. `get_pixel` panics on coordinates outside the image, so
/// they are required to be inside.
#[verifier::external_body]
fn image_pixel(img: &DynamicImage, x: u32, y: u32) -> (p: (u8, u8, u8))
    requires
        x < image_size(*img).0,
        y < image_size(*img).1,
    ensures
        p == image_pixels(*img)[(x as nat, y as nat)],
{
    let p = img.get_pixel(x, y).to_rgb();
    (p[0], p[1], p[2])
}

/// A coordinate brought into `0..count`: below it the first place, past it
/// the last.
pub open spec fn clamp_index(i: int, count: int) -> int {
    if i < 0 {
        0
    } else if i >= count {
        count - 1
    } else {
        i
    }
}

/// The colour of pixel `(x, y)` of `img`, which must be a pixel of it.
pub open spec fn pixel_color(img: DynamicImage, x: int, y: int) -> Color {
    let p = image_pixels(img)[(x as nat, y as nat)];
    Color { r: p.0, g: p.1, b: p.2 }
}

/// What a lookup at `(x, y)` in a texture made from `img` returns: the colour
/// of pixel `(min(x, width - 1), min(y, height - 1))`. Inside the image that
/// is the pixel itself, outside it the pixel nearest to the coordinates, on
/// the edge of the image. Nothing marks such a lookup.
pub open spec fn sample(img: DynamicImage, x: int, y: int) -> Color {
    pixel_color(
        img,
        clamp_index(x, image_size(img).0 as int),
        clamp_index(y, image_size(img).1 as int),
    )
}

/// A texture coordinate brought into the range from zero to one.
pub open spec fn unit(coordinate: Scalar) -> Scalar {
    coordinate.spec_clamp(Scalar { bits: ZERO_BITS }, Scalar { bits: ONE_BITS })
}

/// Brings a pair of texture coordinates into the unit square. Coordinates
/// outside it are moved to its nearest edge, silently.
pub fn clamp_uv(u: Scalar, v: Scalar) -> (uv: (Scalar, Scalar))
    ensures
        uv.0 == unit(u),
        uv.1 == unit(v),
{
    (u.clamp(Scalar::zero(), Scalar::one()), v.clamp(Scalar::zero(), Scalar::one()))
}

/// True when a texture can be made from `img`: it has at least one pixel and
/// its pixels can be counted.
pub open spec fn loadable(img: DynamicImage) -> bool {
    &&& image_size(img).0 > 0
    &&& image_size(img).1 > 0
    &&& image_size(img).0 * image_size(img).1 <= usize::MAX
}

/// An immutable texture. Its colours are fixed when it is made and are those
/// of the image it was made from.
#[derive(Debug)]
pub struct Texture {
    id: String,
    image: DynamicImage,
    width: usize,
    height: usize,
    color_array: Vec<Color>,
}

impl Texture {
    #[verifier::type_invariant]
    spec fn well_formed(self) -> bool {
        &&& self.width > 0
        &&& self.height > 0
        &&& self.width * self.height <= usize::MAX
        &&& is_copy_of(self.color_array@, self.image, self.width as int, self.height as int)
    }

    /// The image that the texture was made from.
    pub closed spec fn source(self) -> DynamicImage {
        self.image
    }

    /// The name that the texture was given.
    pub closed spec fn name(self) -> Seq<char> {
        self.id@
    }

    /// Makes a texture named `id` from a decoded image.
    pub fn new(id: String, image: DynamicImage) -> (t: Texture)
        requires
            loadable(image),
        ensures
            t.source() == image,
            t.name() == id@,
    {
        let width: usize = image_width(&image) as usize;
        let height: usize = image_height(&image) as usize;
        let color_array = load_color_array(&image, width, height);
        Texture { id, image, width, height, color_array }
    }

    /// Makes a texture named `id` from a decoded image, or nothing when the
    /// image is empty or too large to hold.
    pub fn try_new(id: String, image: DynamicImage) -> (t: Option<Texture>)
        ensures
            t is Some <==> loadable(image),
            t matches Some(t) ==> t.source() == image && t.name() == id@,
    {
        let width: u32 = image_width(&image);
        let height: u32 = image_height(&image);
        if width == 0 || height == 0 {
            return None;
        }
        assert(width as u64 * height as u64 <= u64::MAX) by (nonlinear_arith)
            requires
                width <= u32::MAX,
                height <= u32::MAX,
        ;
        if width as u64 * height as u64 > usize::MAX as u64 {
            return None;
        }
        Some(Texture::new(id, image))
    }

    /// The name that the texture was given.
    pub fn id(&self) -> (id: &String)
        ensures
            id@ == self.name(),
    {
        &self.id
    }

    /// Number of texel columns. Never zero.
    pub fn width(&self) -> (w: usize)
        ensures
            w == image_size(self.source()).0,
            w > 0,
    {
        proof {
            use_type_invariant(self);
        }
        self.width
    }

    /// Number of texel rows. Never zero.
    pub fn height(&self) -> (h: usize)
        ensures
            h == image_size(self.source()).1,
            h > 0,
    {
        proof {
            use_type_invariant(self);
        }
        self.height
    }

    /// The colour of texel `(x, y)`, row 0 being the top row. Coordinates
    /// past the last column or row are brought back to it, silently: the
    /// result is always a texel of the texture.
    pub fn get_color(&self, x: usize, y: usize) -> (c: Color)
        ensures
            c == sample(self.source(), x as int, y as int),
    {
        proof {
            use_type_invariant(self);
        }
        let column: usize = if x < self.width {
            x
        } else {
            self.width - 1
        };
        let row: usize = if y < self.height {
            y
        } else {
            self.height - 1
        };
        self.color_array[cell(self.width, self.height, column, row)]
    }
}

/// True when `colors` holds, row by row, the colours of the `w` by `h`
/// pixels of `img`.
spec fn is_copy_of(colors: Seq<Color>, img: DynamicImage, w: int, h: int) -> bool {
    &&& w == image_size(img).0
    &&& h == image_size(img).1
    &&& colors.len() == w * h
    &&& copied_below(colors, img, w, h, w, 0)
}

/// True when `colors` holds the pixels of the columns left of `x`, and those
/// of column `x` above row `y`.
spec fn copied_below(
    colors: Seq<Color>,
    img: DynamicImage,
    w: int,
    h: int,
    x: int,
    y: int,
) -> bool {
    forall|i: int, j: int|
        0 <= j < h && (0 <= i < x || (i == x && j < y)) ==> #[trigger] colors[cell_index(w, i, j)]
            == sample(img, i, j)
}

/// Copies the pixels of `image` into a fresh row-major buffer.
fn load_color_array(image: &DynamicImage, width: usize, height: usize) -> (colors: Vec<Color>)
    requires
        width == image_size(*image).0,
        height == image_size(*image).1,
        width <= u32::MAX,
        height <= u32::MAX,
        width * height <= usize::MAX,
    ensures
        is_copy_of(colors@, *image, width as int, height as int),
{
    let ghost w = width as int;
    let ghost h = height as int;
    let mut colors: Vec<Color> = vec![Color::black(); width * height];
    let mut x: usize = 0;
    while x < width
        invariant
            x <= width,
            w == width == image_size(*image).0 <= u32::MAX,
            h == height == image_size(*image).1 <= u32::MAX,
            width * height <= usize::MAX,
            colors.len() == w * h,
            copied_below(colors@, *image, w, h, x as int, 0),
        decreases width - x,
    {
        let mut y: usize = 0;
        while y < height
            invariant
                x < width,
                y <= height,
                w == width == image_size(*image).0 <= u32::MAX,
                h == height == image_size(*image).1 <= u32::MAX,
                width * height <= usize::MAX,
                colors.len() == w * h,
                copied_below(colors@, *image, w, h, x as int, y as int),
            decreases height - y,
        {
            let pixel = image_pixel(image, x as u32, y as u32);
            let color = Color::new(pixel.0, pixel.1, pixel.2);
            proof {
                lemma_grid(w, h);
            }
            colors[cell(width, height, x, y)] = color;
            y += 1;
        }
        x += 1;
    }
    colors
}

} // verus!
