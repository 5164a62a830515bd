//! The decisions of the recursive shader: when a ray is traced at all, which
//! object it hits, what shadow falls on the hit, and which secondary rays
//! follow.

use crate::color::{unpack, Color};
use crate::material::{Material, REFLECTIVE, TRANSMISSIVE};
use crate::scalar::{Scalar, HALF_BITS, INFINITY_BITS, ONE_BITS, ZERO_BITS};
use vstd::prelude::*;

verus! {

/// Depth at which rays are no longer traced. A primary ray has depth 0.
pub const MAX_DEPTH: u32 = 3;

/// The flat colour of the environment, `0xRRGGBB`.
pub const SKYBOX_HEX: u32 = 0x458EE4;

/// What casting a ray at some depth amounts to.
#[derive(Clone, Copy, Debug, PartialEq, Eq, Structural)]
pub enum RayStep {
    /// The depth bound is reached: the ray is not traced, and its colour is
    /// the environment colour.
    Environment,
    /// The ray is traced against the scene.
    Trace,
}

/// The secondary rays that shading a hit calls for, each with the depth at
/// which it is cast.
#[derive(Clone, Copy, Debug, PartialEq, Eq, Structural)]
pub struct Bounces {
    pub reflection: Option<u32>,
    pub refraction: Option<u32>,
}

/// What a shadow ray found on one object.
#[derive(Clone, Copy, Debug)]
pub struct Occluder {
    /// Distance at which the shadow ray hits the object; below zero it is
    /// that of no hit.
    pub distance: Scalar,
    /// The soft-shadow term of the object: one half less the squared share
    /// of the way to the light at which it stands, the share counted as one
    /// at most.
    pub term: Scalar,
}

/// From which side a ray meets a surface. The law of refraction reads the
/// ratio of the refractive index of the medium that the ray comes from to
/// that of the medium that it goes into, outside a body being vacuum, of
/// index one.
#[derive(Clone, Copy, Debug, PartialEq, Eq, Structural)]
pub enum Crossing {
    /// The ray runs against the outward normal: it comes from outside.
    /// Refraction is worked out with the normal as it is and the ratio one
    /// over the index of the material.
    Entering,
    /// The ray runs along the outward normal: it comes from inside.
    /// Refraction is worked out with the normal turned round and the ratio
    /// inverted, which makes it the index of the material itself.
    Leaving,
}

/// How the law of refraction is set up for a ray.
#[derive(Clone, Copy, Debug, PartialEq, Eq, Structural)]
pub struct Bend {
    /// Whether the normal is turned round, to face the ray.
    pub normal_turned: bool,
    /// Whether the ratio of the indices is inverted: when it is not, the
    /// ratio is one over the index of the material, and when it is, the index
    /// of the material itself.
    pub ratio_inverted: bool,
}

/// What becomes of the light that a surface would let through.
#[derive(Clone, Copy, Debug, PartialEq, Eq, Structural)]
pub enum Transmission {
    /// The light passes, bent.
    Refracted,
    /// Total internal reflection: nothing passes, and the ray is mirrored.
    Reflected,
}

/// The side from which a ray meets a surface, from the cosine of the angle
/// between the reversed ray and the outward normal.
pub open spec fn crossing_of(cosine: Scalar) -> Crossing {
    if cosine.spec_is_negative() {
        Crossing::Leaving
    } else {
        Crossing::Entering
    }
}

/// How the law of refraction is set up for a ray that meets a surface from
/// the given side: as it stands for a ray that enters, with the normal
/// turned round and the ratio inverted for a ray that leaves.
pub open spec fn bend_of(crossing: Crossing) -> Bend {
    match crossing {
        Crossing::Entering => Bend { normal_turned: false, ratio_inverted: false },
        Crossing::Leaving => Bend { normal_turned: true, ratio_inverted: true },
    }
}

/// What becomes of the transmitted light, from the discriminant of the law
/// of refraction: only a discriminant above zero lets light pass.
pub open spec fn transmission_of(discriminant: Scalar) -> Transmission {
    if discriminant.spec_is_positive() {
        Transmission::Refracted
    } else {
        Transmission::Reflected
    }
}

/// What casting a ray at `depth` amounts to.
pub open spec fn step_at(depth: u32) -> RayStep {
    if depth >= MAX_DEPTH {
        RayStep::Environment
    } else {
        RayStep::Trace
    }
}

/// The secondary rays of a hit on `material` by a ray of depth `depth`: one
/// for each of the reflective and the transmissive weight that is above
/// zero, one level deeper than the ray itself. A ray that is not traced hits
/// nothing and has none.
pub open spec fn bounces_at(material: Material, depth: u32) -> Bounces {
    let traced = depth < MAX_DEPTH;
    Bounces {
        reflection: if traced && material.albedo[REFLECTIVE as int].spec_is_positive() {
            Some((depth + 1) as u32)
        } else {
            None
        },
        refraction: if traced && material.albedo[TRANSMISSIVE as int].spec_is_positive() {
            Some((depth + 1) as u32)
        } else {
            None
        },
    }
}

/// True when object `i` can be the nearest hit at all: the ray hits it, not
/// behind its origin and at a distance below infinity. A hit at distance
/// zero counts: it is that of a ray which starts inside the object.
pub open spec fn eligible(hits: Seq<Option<Scalar>>, i: int) -> bool {
    &&& 0 <= i < hits.len()
    &&& hits[i] is Some
    &&& !hits[i]->0.spec_is_negative()
    &&& hits[i]->0.spec_lt(Scalar { bits: INFINITY_BITS })
}

/// True when `i` is the nearest hit: it is eligible, no eligible object is
/// nearer, and of those at the same distance it comes first.
pub open spec fn is_nearest(hits: Seq<Option<Scalar>>, i: int) -> bool {
    &&& eligible(hits, i)
    &&& forall|j: int| #[trigger] eligible(hits, j) ==> hits[i]->0.rank() <= hits[j]->0.rank()
    &&& forall|j: int|
        #[trigger] eligible(hits, j) && j < i ==> hits[i]->0.rank() < hits[j]->0.rank()
}

/// True when object `i` blocks a light at distance `light_distance`: the
/// shadow ray hits it between its origin and the light, not behind its
/// origin and before it reaches the light.
pub open spec fn blocks(
    occluders: Seq<Option<Occluder>>,
    light_distance: Scalar,
    i: int,
) -> bool {
    &&& 0 <= i < occluders.len()
    &&& occluders[i] is Some
    &&& !occluders[i]->0.distance.spec_is_negative()
    &&& occluders[i]->0.distance.spec_lt(light_distance)
}

/// True when object `i` is the first that blocks the light. Only the first
/// blocker counts: blockers do not add up.
pub open spec fn is_first_blocker(
    occluders: Seq<Option<Occluder>>,
    light_distance: Scalar,
    i: int,
) -> bool {
    &&& blocks(occluders, light_distance, i)
    &&& forall|j: int| 0 <= j < i ==> !blocks(occluders, light_distance, j)
}

/// How much of a light a surface loses to a blocker with the given
/// soft-shadow term: the term brought into the range from zero to one half.
pub open spec fn shadow_of(term: Scalar) -> Scalar {
    term.spec_clamp(Scalar { bits: ZERO_BITS }, Scalar { bits: HALF_BITS })
}

/// The share of light that a surface reflects: the value of the Fresnel
/// approximation brought into the range from zero to one.
pub open spec fn reflectance_of(approximation: Scalar) -> Scalar {
    approximation.spec_clamp(Scalar { bits: ZERO_BITS }, Scalar { bits: ONE_BITS })
}

/// The colour of a ray that is not traced.
pub fn environment_color() -> (c: Color)
    ensures
        c == unpack(SKYBOX_HEX),
{
    Color::from_hex(SKYBOX_HEX)
}

/// Decides whether a ray of the given depth is traced.
pub fn ray_step(depth: u32) -> (step: RayStep)
    ensures
        step == step_at(depth),
{
    if depth >= MAX_DEPTH {
        RayStep::Environment
    } else {
        RayStep::Trace
    }
}

/// Decides which secondary rays follow a hit on `material` by a ray of the
/// given depth.
pub fn bounces(material: &Material, depth: u32) -> (b: Bounces)
    ensures
        b == bounces_at(*material, depth),
{
    if depth >= MAX_DEPTH {
        return Bounces { reflection: None, refraction: None };
    }
    Bounces {
        reflection: if material.is_reflective() {
            Some(depth + 1)
        } else {
            None
        },
        refraction: if material.is_transmissive() {
            Some(depth + 1)
        } else {
            None
        },
    }
}

/// Finds the nearest hit. `hits[i]` is the distance at which the ray hits
/// object `i`, or nothing when it misses it. A distance below zero is that of
/// no hit: what lies behind the ray is not seen.
pub fn nearest_hit(hits: &[Option<Scalar>]) -> (nearest: Option<usize>)
    ensures
        nearest matches Some(i) ==> is_nearest(hits@, i as int),
        nearest is None ==> forall|j: int| !eligible(hits@, j),
{
    let mut nearest: Option<usize> = None;
    let mut zbuffer = Scalar::infinity();
    let mut i: usize = 0;
    while i < hits.len()
        invariant
            i <= hits.len(),
            !zbuffer.nan(),
            zbuffer.rank() <= INFINITY_BITS,
            match nearest {
                Some(n) => n < i && eligible(hits@, n as int) && hits@[n as int]->0 == zbuffer,
                None => zbuffer.bits == INFINITY_BITS,
            },
            forall|j: int| #[trigger] eligible(hits@, j) && j < i ==> nearest is Some,
            forall|j: int|
                #[trigger] eligible(hits@, j) && j < i ==> zbuffer.rank() <= hits@[j]->0.rank(),
            forall|j: int|
                #[trigger] eligible(hits@, j) && nearest is Some && j < nearest->0
                    ==> zbuffer.rank() < hits@[j]->0.rank(),
        decreases hits.len() - i,
    {
        if let Some(distance) = hits[i] {
            if !distance.is_negative() && distance.lt(zbuffer) {
                zbuffer = distance;
                nearest = Some(i);
            }
        }
        i += 1;
    }
    nearest
}

/// Finds the first object that blocks a light.
fn first_blocker(occluders: &[Option<Occluder>], light_distance: Scalar) -> (blocker: Option<usize>)
    ensures
        blocker matches Some(i) ==> is_first_blocker(occluders@, light_distance, i as int),
        blocker is None ==> forall|j: int| !blocks(occluders@, light_distance, j),
{
    let mut i: usize = 0;
    while i < occluders.len()
        invariant
            i <= occluders.len(),
            forall|j: int| 0 <= j < i ==> !blocks(occluders@, light_distance, j),
        decreases occluders.len() - i,
    {
        if let Some(occluder) = occluders[i] {
            if !occluder.distance.is_negative() && occluder.distance.lt(light_distance) {
                return Some(i);
            }
        }
        i += 1;
    }
    None
}

/// The shadow intensity at a surface point for one light at distance
/// `light_distance`: how much of the light the point loses. `occluders[i]` is
/// what the shadow ray from the point to the light found on object `i`, or
/// nothing when it misses the object. The objects are taken in order, and
/// the first that the ray hits between its origin and the light decides.
pub fn cast_shadow(occluders: &[Option<Occluder>], light_distance: Scalar) -> (shadow: Scalar)
    ensures
        (forall|j: int| !blocks(occluders@, light_distance, j)) ==> shadow.bits == ZERO_BITS,
        forall|i: int|
            is_first_blocker(occluders@, light_distance, i) ==> shadow == shadow_of(
                occluders@[i]->0.term,
            ),
{
    match first_blocker(occluders, light_distance) {
        None => Scalar::zero(),
        Some(blocker) => {
            assert forall|i: int| is_first_blocker(occluders@, light_distance, i) implies i
                == blocker by {
                if i < blocker {
                    assert(!blocks(occluders@, light_distance, i));
                } else if i > blocker {
                    assert(!blocks(occluders@, light_distance, blocker as int));
                }
            }
            match occluders[blocker] {
                Some(occluder) => occluder.term.clamp(Scalar::zero(), Scalar::half()),
                None => Scalar::zero(),
            }
        },
    }
}

/// Decides from which side a ray meets a surface.
pub fn crossing(cosine: Scalar) -> (c: Crossing)
    ensures
        c == crossing_of(cosine),
{
    if cosine.is_negative() {
        Crossing::Leaving
    } else {
        Crossing::Entering
    }
}

/// Decides with which normal and which ratio of indices the refraction of
/// a ray is worked out.
pub fn bend(crossing: Crossing) -> (b: Bend)
    ensures
        b == bend_of(crossing),
{
    match crossing {
        Crossing::Entering => Bend { normal_turned: false, ratio_inverted: false },
        Crossing::Leaving => Bend { normal_turned: true, ratio_inverted: true },
    }
}

/// Decides whether a ray is refracted or, by total internal reflection,
/// mirrored.
pub fn transmission(discriminant: Scalar) -> (t: Transmission)
    ensures
        t == transmission_of(discriminant),
{
    if discriminant.is_positive() {
        Transmission::Refracted
    } else {
        Transmission::Reflected
    }
}

/// The Fresnel reflectance of a surface, from the value that the
/// approximation formula gives for it.
pub fn reflectance(approximation: Scalar) -> (r: Scalar)
    ensures
        r == reflectance_of(approximation),
{
    approximation.clamp(Scalar::zero(), Scalar::one())
}

/// At most one object is the nearest hit.
pub proof fn lemma_nearest_unique(hits: Seq<Option<Scalar>>, i: int, j: int)
    requires
        is_nearest(hits, i),
        is_nearest(hits, j),
    ensures
        i == j,
{
}

/// A ray at the depth bound or beyond it is never traced and spawns
/// nothing, whatever the scene; and a ray one level above the bound is the
/// last that is traced: each of its secondary rays takes the environment
/// colour at once. Secondary rays are always exactly one level deeper than
/// the ray that spawned them.
pub proof fn lemma_depth_bound(material: Material, depth: u32)
    ensures
        depth >= MAX_DEPTH ==> step_at(depth) == RayStep::Environment,
        depth >= MAX_DEPTH ==> bounces_at(material, depth) == (Bounces {
            reflection: None,
            refraction: None,
        }),
        depth < MAX_DEPTH ==> step_at(depth) == RayStep::Trace,
        bounces_at(material, depth).reflection matches Some(d) ==> d == depth + 1 && d
            <= MAX_DEPTH,
        bounces_at(material, depth).refraction matches Some(d) ==> d == depth + 1 && d
            <= MAX_DEPTH,
        depth == MAX_DEPTH - 1 ==> (bounces_at(material, depth).reflection matches Some(d)
            ==> step_at(d) == RayStep::Environment),
        depth == MAX_DEPTH - 1 ==> (bounces_at(material, depth).refraction matches Some(d)
            ==> step_at(d) == RayStep::Environment),
{
}

/// The order of the objects only breaks ties: two lists of hits that hold
/// the same eligible distances, in whatever order, have their nearest hits at
/// the same distance.
pub proof fn lemma_nearest_order_insensitive(
    first: Seq<Option<Scalar>>,
    second: Seq<Option<Scalar>>,
    i: int,
    j: int,
)
    requires
        is_nearest(first, i),
        is_nearest(second, j),
        forall|k: int| #[trigger]
            eligible(first, k) ==> exists|m: int| #[trigger]
                eligible(second, m) && second[m] == first[k],
        forall|m: int| #[trigger]
            eligible(second, m) ==> exists|k: int| #[trigger]
                eligible(first, k) && first[k] == second[m],
    ensures
        first[i]->0.rank() == second[j]->0.rank(),
{
    let m = choose|m: int| #[trigger] eligible(second, m) && second[m] == first[i];
    let k = choose|k: int| #[trigger] eligible(first, k) && first[k] == second[j];
    assert(eligible(second, m) && second[m] == first[i]);
    assert(eligible(first, k) && first[k] == second[j]);
}

/// True when `depths` is a line of descent: every ray but the last is
/// traced, and the next ray is one of its secondary rays.
pub open spec fn is_descent(depths: Seq<u32>) -> bool {
    forall|i: int|
        0 <= i < depths.len() - 1 ==> step_at(#[trigger] depths[i]) == RayStep::Trace && depths[i
            + 1] == depths[i] + 1
}

/// Shading always ends: no line of descent from a primary ray holds more
/// than `MAX_DEPTH` traced rays, and the one ray that may follow them is not
/// traced.
pub proof fn lemma_descent_bounded(depths: Seq<u32>)
    requires
        is_descent(depths),
        depths.len() > 0,
    ensures
        forall|i: int| 0 <= i < depths.len() ==> #[trigger] depths[i] == depths[0] + i,
        depths[0] < MAX_DEPTH ==> depths.len() <= MAX_DEPTH - depths[0] + 1,
        depths[0] >= MAX_DEPTH ==> depths.len() == 1,
        depths.len() == MAX_DEPTH - depths[0] + 1 ==> step_at(depths.last())
            == RayStep::Environment,
    decreases depths.len(),
{
    if depths.len() > 1 {
        let shorter = depths.drop_last();
        assert forall|i: int| 0 <= i < shorter.len() - 1 implies step_at(#[trigger] shorter[i])
            == RayStep::Trace && shorter[i + 1] == shorter[i] + 1 by {
            assert(shorter[i] == depths[i]);
            assert(shorter[i + 1] == depths[i + 1]);
        }
        lemma_descent_bounded(shorter);
        let last: int = depths.len() - 1;
        assert(shorter[last - 1] == depths[last - 1]);
        assert(step_at(depths[last - 1]) == RayStep::Trace);
        assert(depths[last] == depths[last - 1] + 1);
        assert forall|i: int| 0 <= i < depths.len() implies #[trigger] depths[i] == depths[0]
            + i by {
            if i < last {
                assert(shorter[i] == depths[i]);
            }
        }
    }
}

/// A blocked light loses between nothing and one half of its intensity, and
/// exactly its soft-shadow term where that lies in this range.
pub proof fn lemma_shadow_range(term: Scalar)
    requires
        !term.nan(),
    ensures
        (Scalar { bits: ZERO_BITS }).spec_le(shadow_of(term)),
        shadow_of(term).spec_le(Scalar { bits: HALF_BITS }),
        (Scalar { bits: ZERO_BITS }).spec_le(term) && term.spec_le(Scalar { bits: HALF_BITS })
            ==> shadow_of(term) == term,
{
}

/// At most one object is the first blocker of a light, and there is one
/// exactly when some object blocks the light.
pub proof fn lemma_first_blocker(
    occluders: Seq<Option<Occluder>>,
    light_distance: Scalar,
    i: int,
    j: int,
)
    ensures
        is_first_blocker(occluders, light_distance, i) && is_first_blocker(
            occluders,
            light_distance,
            j,
        ) ==> i == j,
        blocks(occluders, light_distance, i) ==> exists|k: int|
            0 <= k <= i && is_first_blocker(occluders, light_distance, k),
    decreases i,
{
    if is_first_blocker(occluders, light_distance, i) && is_first_blocker(
        occluders,
        light_distance,
        j,
    ) {
        if i < j {
            assert(!blocks(occluders, light_distance, i));
        } else if j < i {
            assert(!blocks(occluders, light_distance, j));
        }
    }
    if blocks(occluders, light_distance, i) {
        if is_first_blocker(occluders, light_distance, i) {
            assert(0 <= i <= i && is_first_blocker(occluders, light_distance, i));
        } else {
            let earlier = choose|k: int| 0 <= k < i && blocks(occluders, light_distance, k);
            lemma_first_blocker(occluders, light_distance, earlier, j);
            let first = choose|k: int|
                0 <= k <= earlier && is_first_blocker(occluders, light_distance, k);
            assert(0 <= first <= i && is_first_blocker(occluders, light_distance, first));
        }
    }
}

/// The reflectance of a surface lies between zero and one, whatever number
/// the approximation gives.
pub proof fn lemma_reflectance_range(approximation: Scalar)
    requires
        !approximation.nan(),
    ensures
        (Scalar { bits: ZERO_BITS }).spec_le(reflectance_of(approximation)),
        reflectance_of(approximation).spec_le(Scalar { bits: ONE_BITS }),
{
}

} // verus!
