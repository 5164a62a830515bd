//! Surface materials: a base colour, constant or read from a shared texture,
//! and the shading parameters that go with it.

use crate::color::Color;
use crate::scalar::Scalar;
use crate::texture::{sample, Texture};
use std::sync::Arc;
use vstd::prelude::*;

verus! {

/// Place of the diffuse weight in [`Material::albedo`].
pub const DIFFUSE: usize = 0;

/// Place of the specular weight in [`Material::albedo`].
pub const SPECULAR: usize = 1;

/// Place of the reflective weight in [`Material::albedo`].
pub const REFLECTIVE: usize = 2;

/// Place of the transmissive weight in [`Material::albedo`].
pub const TRANSMISSIVE: usize = 3;

/// How a surface answers light. The weights are not validated: they need not
/// sum to one.
#[derive(Debug, Clone)]
pub struct Material {
    /// Base colour of an untextured surface.
    pub diffuse: Color,
    /// Specular exponent.
    pub specular: Scalar,
    /// Diffuse, specular, reflective and transmissive weights, in this order.
    pub albedo: [Scalar; 4],
    /// Refractive index; one is vacuum.
    pub refractive_index: Scalar,
    /// Whether the base colour is read from `texture`.
    pub has_texture: bool,
    /// The texture that gives the base colour, shared with every other
    /// material made from it.
    pub texture: Option<Arc<Texture>>,
    /// Colour of the light that the surface gives off; black for none.
    pub emission: Color,
}

impl Material {
    /// True when the base colour comes from a texture.
    pub open spec fn textured(self) -> bool {
        self.has_texture && self.texture is Some
    }

    /// The base colour at texel coordinates `(x, y)`: that of the texel of
    /// the texture, the nearest one for coordinates outside it, or the
    /// constant colour of an untextured surface.
    pub open spec fn diffuse_at(self, x: int, y: int) -> Color {
        if self.textured() {
            sample(self.texture->0.source(), x, y)
        } else {
            self.diffuse
        }
    }

    /// An untextured material that emits nothing.
    pub fn new(
        diffuse: Color,
        specular: Scalar,
        albedo: [Scalar; 4],
        refractive_index: Scalar,
    ) -> (m: Material)
        ensures
            m == (Material {
                diffuse,
                specular,
                albedo,
                refractive_index,
                has_texture: false,
                texture: None,
                emission: Color { r: 0, g: 0, b: 0 },
            }),
    {
        Material {
            diffuse,
            specular,
            albedo,
            refractive_index,
            has_texture: false,
            texture: None,
            emission: Color::black(),
        }
    }

    /// A textured material that emits nothing. Its constant colour, never
    /// shown while the texture is there, is pure red.
    pub fn new_with_texture(
        specular: Scalar,
        albedo: [Scalar; 4],
        refractive_index: Scalar,
        texture: Arc<Texture>,
    ) -> (m: Material)
        ensures
            m == (Material {
                diffuse: Color { r: 255, g: 0, b: 0 },
                specular,
                albedo,
                refractive_index,
                has_texture: true,
                texture: Some(texture),
                emission: Color { r: 0, g: 0, b: 0 },
            }),
    {
        Material {
            diffuse: Color::new(255, 0, 0),
            specular,
            albedo,
            refractive_index,
            has_texture: true,
            texture: Some(texture),
            emission: Color::black(),
        }
    }

    /// A textured material that gives off light of colour `emission`.
    pub fn new_with_texture_and_emission(
        specular: Scalar,
        albedo: [Scalar; 4],
        refractive_index: Scalar,
        emission: Color,
        texture: Arc<Texture>,
    ) -> (m: Material)
        ensures
            m == (Material {
                diffuse: Color { r: 255, g: 0, b: 0 },
                specular,
                albedo,
                refractive_index,
                has_texture: true,
                texture: Some(texture),
                emission,
            }),
    {
        Material {
            diffuse: Color::new(255, 0, 0),
            specular,
            albedo,
            refractive_index,
            has_texture: true,
            texture: Some(texture),
            emission,
        }
    }

    /// The material of nothing: black, with every parameter zero.
    pub fn black() -> (m: Material)
        ensures
            m == (Material {
                diffuse: Color { r: 0, g: 0, b: 0 },
                specular: Scalar { bits: 0 },
                albedo: [
                    Scalar { bits: 0 },
                    Scalar { bits: 0 },
                    Scalar { bits: 0 },
                    Scalar { bits: 0 },
                ],
                refractive_index: Scalar { bits: 0 },
                has_texture: false,
                texture: None,
                emission: Color { r: 0, g: 0, b: 0 },
            }),
    {
        Material {
            diffuse: Color::black(),
            specular: Scalar::zero(),
            albedo: [Scalar::zero(), Scalar::zero(), Scalar::zero(), Scalar::zero()],
            refractive_index: Scalar::zero(),
            has_texture: false,
            texture: None,
            emission: Color::black(),
        }
    }

    /// The base colour at texel coordinates `(x, y)`, row 0 being the top
    /// row. Coordinates past the last column or row are brought back to it.
    pub fn get_diffuse_color(&self, x: usize, y: usize) -> (c: Color)
        ensures
            c == self.diffuse_at(x as int, y as int),
    {
        if self.has_texture {
            if let Some(tex) = &self.texture {
                return tex.get_color(x, y);
            }
        }
        self.diffuse
    }

    /// True when the surface gives off light of its own.
    pub fn is_emissive(&self) -> (e: bool)
        ensures
            e == (self.emission != Color { r: 0, g: 0, b: 0 }),
    {
        !self.emission.is_black()
    }

    /// True when the reflective weight is above zero, so that a mirror ray
    /// is worth casting.
    pub fn is_reflective(&self) -> (r: bool)
        ensures
            r == self.albedo[REFLECTIVE as int].spec_is_positive(),
    {
        self.albedo[REFLECTIVE].is_positive()
    }

    /// True when the transmissive weight is above zero, so that a refracted
    /// ray is worth casting.
    pub fn is_transmissive(&self) -> (t: bool)
        ensures
            t == self.albedo[TRANSMISSIVE as int].spec_is_positive(),
    {
        self.albedo[TRANSMISSIVE].is_positive()
    }
}

} // verus!
