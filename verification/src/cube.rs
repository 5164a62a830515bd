//! Axis-aligned boxes: the slab test on ray parameters, the choice of the
//! face that was hit, and the place of each face in the texture atlas.

use crate::material::Material;
use crate::scalar::{Scalar, MINUS_ONE_BITS, ONE_BITS, SIGN_BIT, ZERO_BITS};
use vstd::prelude::*;

verus! {

/// How close to a face plane, along its axis, a hit point must lie to count
/// as lying on that face: the pattern of one thousandth.
pub const FACE_TOLERANCE_BITS: u32 = 0x3A83_126F;

/// Width of the atlas image, in pixels.
pub const ATLAS_WIDTH: u32 = 375;

/// Height of the atlas image, in pixels.
pub const ATLAS_HEIGHT: u32 = 500;

/// The atlas is three cells wide.
pub const ATLAS_COLUMNS: u32 = 3;

/// The atlas is four cells high.
pub const ATLAS_ROWS: u32 = 4;

/// Width of one atlas cell, in pixels.
pub const CELL_WIDTH: u32 = 125;

/// Height of one atlas cell, in pixels.
pub const CELL_HEIGHT: u32 = 125;

/// One of the three coordinate axes.
#[derive(Clone, Copy, Debug, PartialEq, Eq, Structural)]
pub enum Axis {
    X,
    Y,
    Z,
}

/// One of the six faces of a box, named by the direction of its outward
/// normal.
#[derive(Clone, Copy, Debug, PartialEq, Eq, Structural)]
pub enum Face {
    /// Normal `(-1, 0, 0)`.
    Left,
    /// Normal `(1, 0, 0)`.
    Right,
    /// Normal `(0, -1, 0)`.
    Bottom,
    /// Normal `(0, 1, 0)`.
    Top,
    /// Normal `(0, 0, -1)`.
    Back,
    /// Normal `(0, 0, 1)`.
    Front,
}

/// Where a face sits in the atlas, and how a point of the face maps into
/// its cell. With `s` and `t` the positions of the point along `u_axis` and
/// `v_axis` inside the box, each between 0 and 1 and replaced by its
/// complement when flipped, the point has atlas pixel coordinates
/// `((column + s) * CELL_WIDTH, (row + t) * CELL_HEIGHT)`, rows counted from
/// the top of the image.
#[derive(Clone, Copy, Debug, PartialEq, Eq, Structural)]
pub struct AtlasPlacement {
    pub column: u32,
    pub row: u32,
    pub u_axis: Axis,
    pub u_flipped: bool,
    pub v_axis: Axis,
    pub v_flipped: bool,
}

/// An axis-aligned box between two corners, `min` below `max` on every axis.
#[derive(Clone, Debug)]
pub struct Cube {
    pub min: [Scalar; 3],
    pub max: [Scalar; 3],
    pub material: Material,
}

/// The face that a surface normal belongs to: the sign of the first
/// coordinate that is not zero decides, and a normal without one counts as
/// pointing backwards.
pub open spec fn face_of_normal(normal: [Scalar; 3]) -> Face {
    if normal[0].spec_is_positive() {
        Face::Right
    } else if normal[0].spec_is_negative() {
        Face::Left
    } else if normal[1].spec_is_positive() {
        Face::Top
    } else if normal[1].spec_is_negative() {
        Face::Bottom
    } else if normal[2].spec_is_positive() {
        Face::Front
    } else {
        Face::Back
    }
}

/// True when an offset from a face plane is within the tolerance.
pub open spec fn on_plane(offset: Scalar) -> bool {
    offset.spec_abs().spec_lt(Scalar { bits: FACE_TOLERANCE_BITS })
}

/// The face that a hit point lies on, from its offsets to the planes through
/// the `min` corner and through the `max` corner. The x planes are tried
/// first, then the y planes, then the z planes, the `min` plane before the
/// `max` plane; a point on none of the first five is taken to be in front.
pub open spec fn face_of_offsets(from_min: [Scalar; 3], from_max: [Scalar; 3]) -> Face {
    if on_plane(from_min[0]) {
        Face::Left
    } else if on_plane(from_max[0]) {
        Face::Right
    } else if on_plane(from_min[1]) {
        Face::Bottom
    } else if on_plane(from_max[1]) {
        Face::Top
    } else if on_plane(from_min[2]) {
        Face::Back
    } else {
        Face::Front
    }
}

/// The ray parameter at which a ray enters slab `axis`: the smaller of its
/// parameters at the two planes.
pub open spec fn slab_near(t_min: [Scalar; 3], t_max: [Scalar; 3], axis: int) -> Scalar {
    t_min[axis].spec_min(t_max[axis])
}

/// The ray parameter at which a ray leaves slab `axis`: the larger of its
/// parameters at the two planes.
pub open spec fn slab_far(t_min: [Scalar; 3], t_max: [Scalar; 3], axis: int) -> Scalar {
    t_min[axis].spec_max(t_max[axis])
}

/// The parameter at which a ray is inside all three slabs at last: the
/// largest of the three entries.
pub open spec fn slab_entry(t_min: [Scalar; 3], t_max: [Scalar; 3]) -> Scalar {
    slab_near(t_min, t_max, 0).spec_max(slab_near(t_min, t_max, 1)).spec_max(
        slab_near(t_min, t_max, 2),
    )
}

/// The parameter at which a ray first leaves one of the three slabs: the
/// smallest of the three exits.
pub open spec fn slab_exit(t_min: [Scalar; 3], t_max: [Scalar; 3]) -> Scalar {
    slab_far(t_min, t_max, 0).spec_min(slab_far(t_min, t_max, 1)).spec_min(
        slab_far(t_min, t_max, 2),
    )
}

/// The distance of a hit whose entry into the overlap of the slabs is at
/// `entry`: the entry itself when it lies in front of the ray's origin, and
/// positive zero when it does not, for then the origin is inside the box and
/// the ray meets the box where it starts.
pub open spec fn hit_distance(entry: Scalar) -> Scalar {
    if entry.spec_is_positive() {
        entry
    } else {
        Scalar { bits: ZERO_BITS }
    }
}

/// The outcome of the slab test: the ray hits the box when it enters the
/// overlap of the slabs before it leaves it and leaves it in front of its
/// origin. The hit is at the entry, or at the origin itself when the origin
/// is inside the box, so that no hit lies behind the ray.
pub open spec fn slab_outcome(t_min: [Scalar; 3], t_max: [Scalar; 3]) -> Option<Scalar> {
    let entry = slab_entry(t_min, t_max);
    let exit = slab_exit(t_min, t_max);
    if entry.spec_lt(exit) && exit.spec_is_positive() {
        Some(hit_distance(entry))
    } else {
        None
    }
}

/// True when pixel `(px, py)` of the atlas image, row 0 at the top, lies in
/// the cell of `face`.
pub open spec fn in_cell(face: Face, px: int, py: int) -> bool {
    let origin = face.spec_placement().spec_origin();
    &&& origin.0 <= px < origin.0 + CELL_WIDTH
    &&& origin.1 <= py < origin.1 + CELL_HEIGHT
}

impl Face {
    /// The outward unit normal of the face, each coordinate being zero, one
    /// or minus one.
    pub open spec fn spec_normal(self) -> [Scalar; 3] {
        let zero = Scalar { bits: ZERO_BITS };
        let one = Scalar { bits: ONE_BITS };
        let minus_one = Scalar { bits: MINUS_ONE_BITS };
        match self {
            Face::Left => [minus_one, zero, zero],
            Face::Right => [one, zero, zero],
            Face::Bottom => [zero, minus_one, zero],
            Face::Top => [zero, one, zero],
            Face::Back => [zero, zero, minus_one],
            Face::Front => [zero, zero, one],
        }
    }

    /// The cell of the face in the atlas and the orientation of the face
    /// inside it.
    pub open spec fn spec_placement(self) -> AtlasPlacement {
        match self {
            Face::Right => AtlasPlacement {
                column: 2,
                row: 1,
                u_axis: Axis::Y,
                u_flipped: false,
                v_axis: Axis::Z,
                v_flipped: true,
            },
            Face::Left => AtlasPlacement {
                column: 0,
                row: 1,
                u_axis: Axis::Y,
                u_flipped: true,
                v_axis: Axis::Z,
                v_flipped: true,
            },
            Face::Top => AtlasPlacement {
                column: 1,
                row: 3,
                u_axis: Axis::X,
                u_flipped: false,
                v_axis: Axis::Z,
                v_flipped: false,
            },
            Face::Bottom => AtlasPlacement {
                column: 1,
                row: 1,
                u_axis: Axis::X,
                u_flipped: false,
                v_axis: Axis::Z,
                v_flipped: false,
            },
            Face::Front => AtlasPlacement {
                column: 1,
                row: 0,
                u_axis: Axis::X,
                u_flipped: false,
                v_axis: Axis::Y,
                v_flipped: true,
            },
            Face::Back => AtlasPlacement {
                column: 1,
                row: 2,
                u_axis: Axis::X,
                u_flipped: false,
                v_axis: Axis::Y,
                v_flipped: false,
            },
        }
    }

    #[verifier::when_used_as_spec(spec_normal)]
    pub fn normal(self) -> (n: [Scalar; 3])
        ensures
            n == self.spec_normal(),
    {
        let zero = Scalar::zero();
        let one = Scalar::one();
        let minus_one = Scalar::minus_one();
        let n = match self {
            Face::Left => [minus_one, zero, zero],
            Face::Right => [one, zero, zero],
            Face::Bottom => [zero, minus_one, zero],
            Face::Top => [zero, one, zero],
            Face::Back => [zero, zero, minus_one],
            Face::Front => [zero, zero, one],
        };
        assert(n =~= self.spec_normal());
        n
    }

    #[verifier::when_used_as_spec(spec_placement)]
    pub fn placement(self) -> (p: AtlasPlacement)
        ensures
            p == self.spec_placement(),
    {
        match self {
            Face::Right => AtlasPlacement {
                column: 2,
                row: 1,
                u_axis: Axis::Y,
                u_flipped: false,
                v_axis: Axis::Z,
                v_flipped: true,
            },
            Face::Left => AtlasPlacement {
                column: 0,
                row: 1,
                u_axis: Axis::Y,
                u_flipped: true,
                v_axis: Axis::Z,
                v_flipped: true,
            },
            Face::Top => AtlasPlacement {
                column: 1,
                row: 3,
                u_axis: Axis::X,
                u_flipped: false,
                v_axis: Axis::Z,
                v_flipped: false,
            },
            Face::Bottom => AtlasPlacement {
                column: 1,
                row: 1,
                u_axis: Axis::X,
                u_flipped: false,
                v_axis: Axis::Z,
                v_flipped: false,
            },
            Face::Front => AtlasPlacement {
                column: 1,
                row: 0,
                u_axis: Axis::X,
                u_flipped: false,
                v_axis: Axis::Y,
                v_flipped: true,
            },
            Face::Back => AtlasPlacement {
                column: 1,
                row: 2,
                u_axis: Axis::X,
                u_flipped: false,
                v_axis: Axis::Y,
                v_flipped: false,
            },
        }
    }

    /// The face that a surface normal belongs to.
    pub fn from_normal(normal: &[Scalar; 3]) -> (f: Face)
        ensures
            f == face_of_normal(*normal),
    {
        if normal[0].is_positive() {
            Face::Right
        } else if normal[0].is_negative() {
            Face::Left
        } else if normal[1].is_positive() {
            Face::Top
        } else if normal[1].is_negative() {
            Face::Bottom
        } else if normal[2].is_positive() {
            Face::Front
        } else {
            Face::Back
        }
    }

    /// The face whose atlas cell holds pixel `(px, py)`, if any does. Half
    /// of the twelve cells of the atlas hold no face.
    pub fn at_atlas_pixel(px: u32, py: u32) -> (f: Option<Face>)
        ensures
            f matches Some(face) ==> in_cell(face, px as int, py as int),
            f is None ==> forall|face: Face| !in_cell(face, px as int, py as int),
    {
        let column: u32 = px / CELL_WIDTH;
        let row: u32 = py / CELL_HEIGHT;
        if column == 1 && row == 0 {
            Some(Face::Front)
        } else if column == 0 && row == 1 {
            Some(Face::Left)
        } else if column == 1 && row == 1 {
            Some(Face::Bottom)
        } else if column == 2 && row == 1 {
            Some(Face::Right)
        } else if column == 1 && row == 2 {
            Some(Face::Back)
        } else if column == 1 && row == 3 {
            Some(Face::Top)
        } else {
            None
        }
    }
}

impl AtlasPlacement {
    /// The pixel in the top left corner of the cell.
    pub open spec fn spec_origin(self) -> (int, int) {
        (self.column * CELL_WIDTH, self.row * CELL_HEIGHT)
    }

    /// The pixel in the top left corner of the cell.
    pub fn origin(&self) -> (o: (u64, u64))
        ensures
            o.0 == self.spec_origin().0,
            o.1 == self.spec_origin().1,
    {
        let cell_width: u64 = CELL_WIDTH as u64;
        let cell_height: u64 = CELL_HEIGHT as u64;
        assert(cell_width == 125 && cell_height == 125);
        (self.column as u64 * cell_width, self.row as u64 * cell_height)
    }
}

fn on_plane_exec(offset: Scalar) -> (r: bool)
    ensures
        r == on_plane(offset),
{
    offset.abs().lt(Scalar::from_bits(FACE_TOLERANCE_BITS))
}

impl Cube {
    /// The slab test. `t_min` and `t_max` hold, axis by axis, the ray
    /// parameters at which the ray crosses the planes through the `min`
    /// corner and through the `max` corner; a ray that runs along a slab
    /// has infinite ones. The result is the distance of the hit along the
    /// ray, never below zero and zero for a ray that starts inside the box,
    /// or nothing when the ray misses the box or the box lies behind the ray.
    pub fn slab_hit(t_min: &[Scalar; 3], t_max: &[Scalar; 3]) -> (hit: Option<Scalar>)
        ensures
            hit == slab_outcome(*t_min, *t_max),
            hit matches Some(t) ==> !t.nan() && t.rank() >= 0,
    {
        let t1 = t_min[0].min(t_max[0]);
        let t2 = t_min[0].max(t_max[0]);
        let t3 = t_min[1].min(t_max[1]);
        let t4 = t_min[1].max(t_max[1]);
        let t5 = t_min[2].min(t_max[2]);
        let t6 = t_min[2].max(t_max[2]);
        let t_enter = t1.max(t3).max(t5);
        let t_exit = t2.min(t4).min(t6);
        if t_enter.lt(t_exit) && t_exit.is_positive() {
            if t_enter.is_positive() {
                Some(t_enter)
            } else {
                Some(Scalar::zero())
            }
        } else {
            None
        }
    }

    /// The face that a hit point lies on. `from_min` and `from_max` hold,
    /// axis by axis, the offsets of the point from the `min` corner and from
    /// the `max` corner.
    pub fn face_at(from_min: &[Scalar; 3], from_max: &[Scalar; 3]) -> (f: Face)
        ensures
            f == face_of_offsets(*from_min, *from_max),
    {
        if on_plane_exec(from_min[0]) {
            Face::Left
        } else if on_plane_exec(from_max[0]) {
            Face::Right
        } else if on_plane_exec(from_min[1]) {
            Face::Bottom
        } else if on_plane_exec(from_max[1]) {
            Face::Top
        } else if on_plane_exec(from_min[2]) {
            Face::Back
        } else {
            Face::Front
        }
    }

    /// Where in the atlas a point of the surface with the given normal is
    /// looked up: the cell of the face that the normal belongs to, and the
    /// orientation of the face in it. The same normal gives the same
    /// placement every time.
    pub fn get_uv(&self, normal: &[Scalar; 3]) -> (p: AtlasPlacement)
        ensures
            p == face_of_normal(*normal).spec_placement(),
    {
        Face::from_normal(normal).placement()
    }
}

/// The normal of a face belongs to that face: the face chosen at a hit is
/// the face whose atlas cell is read.
pub proof fn lemma_normal_round_trip(face: Face)
    ensures
        face_of_normal(face.spec_normal()) == face,
{
}

/// The cells of the faces lie inside the atlas and do not overlap: a pixel
/// in the cell of a face is in the cell of no other face, so reading the
/// atlas where a face was mapped and asking which face that pixel belongs to
/// gives the face back.
pub proof fn lemma_atlas_round_trip(face: Face, other: Face, px: int, py: int)
    requires
        in_cell(face, px, py),
    ensures
        in_cell(other, px, py) ==> other == face,
        0 <= px < ATLAS_WIDTH,
        0 <= py < ATLAS_HEIGHT,
{
}

/// True when none of the six plane parameters is a NaN.
pub open spec fn all_numbers(t_min: [Scalar; 3], t_max: [Scalar; 3]) -> bool {
    forall|axis: int|
        0 <= axis < 3 ==> !(#[trigger] t_min[axis]).nan() && !(#[trigger] t_max[axis]).nan()
}

/// True when at parameter `t` the ray is inside all three slabs: it has
/// entered each of them and left none.
pub open spec fn inside_slabs(t_min: [Scalar; 3], t_max: [Scalar; 3], t: Scalar) -> bool {
    forall|axis: int|
        0 <= axis < 3 ==> (#[trigger] slab_near(t_min, t_max, axis)).spec_le(t) && t.spec_lt(
            slab_far(t_min, t_max, axis),
        )
}

/// No hit lies behind the ray: its distance is a number, not below zero.
/// At that distance the ray is inside all three slabs. A hit in front of the
/// origin is the entry into one of the slabs; a hit at distance zero is that
/// of a ray whose origin is inside the box.
pub proof fn lemma_hit_inside_slabs(t_min: [Scalar; 3], t_max: [Scalar; 3])
    requires
        all_numbers(t_min, t_max),
        slab_outcome(t_min, t_max) is Some,
    ensures
        !slab_outcome(t_min, t_max)->0.nan(),
        slab_outcome(t_min, t_max)->0.rank() >= 0,
        inside_slabs(t_min, t_max, slab_outcome(t_min, t_max)->0),
        slab_outcome(t_min, t_max)->0.spec_is_positive() ==> exists|axis: int|
            0 <= axis < 3 && slab_outcome(t_min, t_max)->0 == slab_near(t_min, t_max, axis),
        !slab_outcome(t_min, t_max)->0.spec_is_positive() ==> slab_outcome(t_min, t_max)->0.bits
            == ZERO_BITS && inside_slabs(t_min, t_max, Scalar { bits: ZERO_BITS }),
{
    let entry = slab_entry(t_min, t_max);
    assert(entry == slab_near(t_min, t_max, 0) || entry == slab_near(t_min, t_max, 1) || entry
        == slab_near(t_min, t_max, 2));
}

/// The distance of a hit is never below zero, whatever the parameters are,
/// numbers or not.
pub proof fn lemma_hit_not_behind(t_min: [Scalar; 3], t_max: [Scalar; 3])
    ensures
        slab_outcome(t_min, t_max) matches Some(t) ==> !t.nan() && !t.spec_is_negative()
            && t.bits != SIGN_BIT,
{
}

/// A ray that is at no parameter inside all three slabs is outside their
/// overlap, and misses the box.
pub proof fn lemma_outside_overlap_misses(t_min: [Scalar; 3], t_max: [Scalar; 3])
    requires
        all_numbers(t_min, t_max),
        forall|t: Scalar| !inside_slabs(t_min, t_max, t),
    ensures
        slab_outcome(t_min, t_max) is None,
{
    if slab_outcome(t_min, t_max) is Some {
        lemma_hit_inside_slabs(t_min, t_max);
    }
}

/// A ray that is inside all three slabs somewhere in front of its origin
/// hits the box, no later than there.
pub proof fn lemma_overlap_in_front_hits(t_min: [Scalar; 3], t_max: [Scalar; 3], t: Scalar)
    requires
        all_numbers(t_min, t_max),
        inside_slabs(t_min, t_max, t),
        t.spec_is_positive(),
    ensures
        slab_outcome(t_min, t_max) is Some,
        slab_outcome(t_min, t_max)->0.spec_le(t),
{
    assert(slab_near(t_min, t_max, 0).spec_le(t));
    assert(slab_near(t_min, t_max, 1).spec_le(t));
    assert(slab_near(t_min, t_max, 2).spec_le(t));
}

/// A ray that leaves one slab no later than it enters another is outside
/// the overlap of the slabs, and misses the box.
pub proof fn lemma_disjoint_slabs_miss(
    t_min: [Scalar; 3],
    t_max: [Scalar; 3],
    leaves: int,
    enters: int,
)
    requires
        all_numbers(t_min, t_max),
        0 <= leaves < 3,
        0 <= enters < 3,
        slab_far(t_min, t_max, leaves).spec_le(slab_near(t_min, t_max, enters)),
    ensures
        forall|t: Scalar| !inside_slabs(t_min, t_max, t),
        slab_outcome(t_min, t_max) is None,
{
    assert forall|t: Scalar| !inside_slabs(t_min, t_max, t) by {
        if inside_slabs(t_min, t_max, t) {
            assert(slab_near(t_min, t_max, enters).spec_le(t));
            assert(t.spec_lt(slab_far(t_min, t_max, leaves)));
        }
    }
}

/// A box that the ray has left behind, on whichever axis, is missed.
pub proof fn lemma_behind_misses(t_min: [Scalar; 3], t_max: [Scalar; 3], axis: int)
    requires
        all_numbers(t_min, t_max),
        0 <= axis < 3,
        !slab_far(t_min, t_max, axis).spec_is_positive(),
    ensures
        slab_outcome(t_min, t_max) is None,
{
}

} // verus!
