use diorama_mc::color::Color;
use diorama_mc::scalar::Scalar;
use diorama_mc::texture::{clamp_uv, Texture};
use image::{DynamicImage, GrayImage, ImageBuffer, Luma, Rgb, RgbImage, Rgba, RgbaImage};

fn gradient(width: u32, height: u32) -> DynamicImage {
    DynamicImage::ImageRgb8(RgbImage::from_fn(width, height, |x, y| {
        Rgb([(10 * x) as u8, (20 * y) as u8, (x + y) as u8])
    }))
}

#[test]
fn new_copies_every_pixel() {
    let texture = Texture::new("gradient".to_string(), gradient(3, 2));
    assert_eq!(texture.width(), 3);
    assert_eq!(texture.height(), 2);
    assert_eq!(texture.id(), "gradient");
    for y in 0..2usize {
        for x in 0..3usize {
            assert_eq!(
                texture.get_color(x, y),
                Color::new((10 * x) as u8, (20 * y) as u8, (x + y) as u8),
                "texel ({x}, {y})"
            );
        }
    }
}

#[test]
fn rows_and_columns_are_not_swapped() {
    let texture = Texture::new("tall".to_string(), gradient(2, 5));
    assert_eq!((texture.width(), texture.height()), (2, 5));
    assert_eq!(texture.get_color(1, 0), Color::new(10, 0, 1));
    assert_eq!(texture.get_color(0, 1), Color::new(0, 20, 1));
    assert_eq!(texture.get_color(1, 4), Color::new(10, 80, 5));
    assert_eq!(texture.get_color(0, 4), Color::new(0, 80, 4));
}

#[test]
fn lookup_outside_the_texture_gives_the_nearest_texel() {
    let texture = Texture::new("gradient".to_string(), gradient(3, 2));
    assert_eq!(texture.get_color(3, 0), texture.get_color(2, 0));
    assert_eq!(texture.get_color(3, 0), Color::new(20, 0, 2));
    assert_eq!(texture.get_color(0, 2), texture.get_color(0, 1));
    assert_eq!(texture.get_color(0, 2), Color::new(0, 20, 1));
    assert_eq!(texture.get_color(1, 7), Color::new(10, 20, 2));
    assert_eq!(texture.get_color(3, 2), Color::new(20, 20, 3));
    assert_eq!(texture.get_color(usize::MAX, 0), Color::new(20, 0, 2));
    assert_eq!(texture.get_color(0, usize::MAX), Color::new(0, 20, 1));
    assert_eq!(texture.get_color(usize::MAX, usize::MAX), Color::new(20, 20, 3));
    assert_eq!(texture.get_color(2, 1), Color::new(20, 20, 3));
}

#[test]
fn no_lookup_is_marked_as_an_error() {
    let black = DynamicImage::ImageRgb8(RgbImage::from_pixel(2, 2, Rgb([0, 0, 0])));
    let texture = Texture::new("black".to_string(), black);
    for y in 0..5usize {
        for x in 0..5usize {
            assert_eq!(texture.get_color(x, y), Color::black(), "texel ({x}, {y})");
        }
    }
}

#[test]
fn one_pixel_texture() {
    let image = DynamicImage::ImageRgb8(RgbImage::from_pixel(1, 1, Rgb([7, 8, 9])));
    let texture = Texture::new("dot".to_string(), image);
    assert_eq!((texture.width(), texture.height()), (1, 1));
    assert_eq!(texture.get_color(0, 0), Color::new(7, 8, 9));
    assert_eq!(texture.get_color(1, 0), Color::new(7, 8, 9));
    assert_eq!(texture.get_color(0, 1), Color::new(7, 8, 9));
    assert_eq!(texture.get_color(9, 9), Color::new(7, 8, 9));
}

#[test]
fn alpha_is_dropped() {
    let image = DynamicImage::ImageRgba8(RgbaImage::from_fn(2, 2, |x, y| {
        Rgba([(100 + x) as u8, (50 + y) as u8, 5, 17])
    }));
    let texture = Texture::new("rgba".to_string(), image);
    assert_eq!(texture.get_color(0, 0), Color::new(100, 50, 5));
    assert_eq!(texture.get_color(1, 0), Color::new(101, 50, 5));
    assert_eq!(texture.get_color(0, 1), Color::new(100, 51, 5));
    assert_eq!(texture.get_color(1, 1), Color::new(101, 51, 5));
}

#[test]
fn grey_images_become_grey_colours() {
    let image = DynamicImage::ImageLuma8(GrayImage::from_fn(2, 1, |x, _| Luma([(77 + x) as u8])));
    let texture = Texture::new("grey".to_string(), image);
    assert_eq!(texture.get_color(0, 0), Color::new(77, 77, 77));
    assert_eq!(texture.get_color(1, 0), Color::new(78, 78, 78));
}

#[test]
fn deep_images_are_narrowed_to_eight_bits() {
    let buffer: ImageBuffer<Rgb<u16>, Vec<u16>> =
        ImageBuffer::from_fn(2, 1, |x, _| if x == 0 { Rgb([0, 65535, 0]) } else { Rgb([65535, 0, 65535]) });
    let texture = Texture::new("deep".to_string(), DynamicImage::ImageRgb16(buffer));
    assert_eq!(texture.get_color(0, 0), Color::new(0, 255, 0));
    assert_eq!(texture.get_color(1, 0), Color::new(255, 0, 255));
}

#[test]
fn try_new_refuses_empty_images() {
    assert!(Texture::try_new("none".to_string(), DynamicImage::new_rgb8(0, 0)).is_none());
    assert!(Texture::try_new("flat".to_string(), DynamicImage::new_rgb8(4, 0)).is_none());
    assert!(Texture::try_new("thin".to_string(), DynamicImage::new_rgb8(0, 4)).is_none());
}

#[test]
fn try_new_loads_what_new_loads() {
    let texture = Texture::try_new("gradient".to_string(), gradient(4, 3)).unwrap();
    let same = Texture::new("gradient".to_string(), gradient(4, 3));
    assert_eq!((texture.width(), texture.height()), (4, 3));
    assert_eq!(texture.id(), same.id());
    for y in 0..4usize {
        for x in 0..5usize {
            assert_eq!(texture.get_color(x, y), same.get_color(x, y));
        }
    }
    assert_eq!(texture.get_color(3, 2), Color::new(30, 40, 5));
}

#[test]
fn texture_coordinates_are_brought_into_the_unit_square() {
    let clamp = |u: f32, v: f32| {
        let (u, v) = clamp_uv(Scalar::from_bits(u.to_bits()), Scalar::from_bits(v.to_bits()));
        (f32::from_bits(u.to_bits()), f32::from_bits(v.to_bits()))
    };
    assert_eq!(clamp(0.25, 0.75), (0.25, 0.75));
    assert_eq!(clamp(0.0, 1.0), (0.0, 1.0));
    assert_eq!(clamp(-0.5, 1.5), (0.0, 1.0));
    assert_eq!(clamp(7.0, -7.0), (1.0, 0.0));
    assert_eq!(clamp(f32::INFINITY, f32::NEG_INFINITY), (1.0, 0.0));
    let (u, v) = clamp(f32::NAN, 0.5);
    assert!(u.is_nan());
    assert_eq!(v, 0.5);
}
