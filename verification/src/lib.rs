//! The discrete core of a small recursive ray tracer.
//!
//! A ray tracer computes with real numbers, and this library does not: the
//! host does the vector arithmetic, in binary32, and hands each number over
//! as its bit pattern. What the library holds is everything that is decided
//! rather than computed:
//!
//! - [`scalar`]: how two such numbers compare;
//! - [`color`]: display colours, packed and unpacked, added and clamped;
//! - [`texture`] and [`material`]: images turned into texel buffers once and
//!   shared by the materials that read them;
//! - [`cube`] and [`sphere`]: which ray parameters are a hit, which face of
//!   a box was hit, and where that face lies in the texture atlas;
//! - [`shader`]: the depth bound of the recursion, the nearest hit, the
//!   blocker of a light, and the secondary rays of a hit;
//! - [`framebuffer`] and [`render`]: the pixels of a frame and how shaded
//!   pixels reach them;
//! - [`grid`]: the row-major addressing that textures and frames share.

pub mod color;
pub mod cube;
pub mod framebuffer;
pub mod grid;
pub mod material;
pub mod render;
pub mod scalar;
pub mod shader;
pub mod sphere;
pub mod texture;
