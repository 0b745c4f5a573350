//! Rays, spheres, intersections, and the decisions of the hit protocol:
//! which quadratic root counts, how the normal is oriented, and which of
//! a scene's hits is nearest.

use vstd::prelude::*;

use crate::linalg::Vec3D;
use crate::materials::Material;
use crate::scalar::neg_key;
use crate::scalar::Scalar;
use crate::scalar::HIT_EPSILON_KEY;
use crate::scalar::ZERO_KEY;

verus! {

/// A ray, never mutated: a fresh one is built per primary sample and per
/// bounce. Its point arithmetic (`origin + t * direction`) runs outside
/// this crate.
#[derive(Clone, Copy, PartialEq, Eq, Structural, Debug)]
pub struct Ray {
    pub origin: Vec3D,
    pub direction: Vec3D,
}

/// A successful hit: where the ray met the surface, how far along the
/// ray (at or beyond the self-hit epsilon), the unit normal oriented to
/// oppose the incoming ray, and whether the ray ran inside the volume.
#[derive(Clone, Copy, PartialEq, Eq, Structural, Debug)]
pub struct Intersection {
    pub point: Vec3D,
    pub distance: Scalar,
    pub local_normal: Vec3D,
    pub inside: bool,
}

/// A sphere with its material.
#[derive(Clone, Copy, PartialEq, Eq, Structural, Debug)]
pub struct Sphere {
    pub origin: Vec3D,
    pub radius: Scalar,
    pub material: Material,
}

/// The closed set of primitive kinds; the hit protocol is written so a
/// further kind only adds a variant here.
#[derive(Clone, Copy, PartialEq, Eq, Structural, Debug)]
pub enum Intersectable {
    Sphere(Sphere),
}

impl Intersectable {
    /// The material attached to the primitive.
    pub fn material(&self) -> (m: Material)
        ensures
            m == self.spec_material(),
    {
        match self {
            Intersectable::Sphere(s) => s.material,
        }
    }

    /// The material attached to the primitive.
    pub open spec fn spec_material(&self) -> Material {
        match self {
            Intersectable::Sphere(s) => s.material,
        }
    }
}

/// The first gate of the sphere test: a discriminant below `+0.0` means
/// the quadratic has no real root and the ray misses the sphere.
pub fn discriminant_misses(discriminant: Scalar) -> (r: bool)
    ensures
        r == (discriminant.key < ZERO_KEY),
{
    discriminant.key < ZERO_KEY
}

/// The root a sphere hit keeps, given both quadratic roots with the
/// smaller first: none when both lie below the self-hit epsilon, else
/// the smaller when it clears the epsilon, else the larger.
pub open spec fn spec_select_root(t0: Scalar, t1: Scalar) -> Option<Scalar> {
    if t0.key < HIT_EPSILON_KEY && t1.key < HIT_EPSILON_KEY {
        None
    } else if t0.key >= HIT_EPSILON_KEY {
        Some(t0)
    } else {
        Some(t1)
    }
}

/// Picks the ray parameter of a sphere hit from the two quadratic roots.
/// Roots below the epsilon are rejected to suppress self-intersection of
/// rays spawned at a surface; the smaller valid root is preferred.
pub fn select_root(t0: Scalar, t1: Scalar) -> (r: Option<Scalar>)
    ensures
        r == spec_select_root(t0, t1),
        r is None <==> (t0.key < HIT_EPSILON_KEY && t1.key < HIT_EPSILON_KEY),
        r matches Some(t) ==> t == t0 || t == t1,
{
    if t0.key < HIT_EPSILON_KEY && t1.key < HIT_EPSILON_KEY {
        None
    } else if t0.key >= HIT_EPSILON_KEY {
        Some(t0)
    } else {
        Some(t1)
    }
}

/// The key of the dot product of the oriented normal with the ray
/// direction, given the key `d` of the geometric normal's dot with that
/// direction: flipping the normal negates the dot exactly, so the key is
/// reversed exactly when `d` lay above `+0.0`.
pub open spec fn oriented_dot_key(d: u64) -> u64 {
    if d > ZERO_KEY {
        neg_key(d)
    } else {
        d
    }
}

/// Assembles an intersection from the hit point, the hit distance, the
/// outward geometric normal, and the key of that normal's dot with the
/// ray direction: the ray ran inside the volume exactly when the dot
/// lies above `+0.0`, and in that case the normal is flipped so it
/// opposes the ray.
pub fn orient_intersection(
    point: Vec3D,
    distance: Scalar,
    surface_normal: Vec3D,
    dir_dot_normal: Scalar,
) -> (i: Intersection)
    ensures
        i.point == point,
        i.distance == distance,
        i.inside <==> dir_dot_normal.key > ZERO_KEY,
        i.local_normal == (if i.inside {
            surface_normal.neg_spec()
        } else {
            surface_normal
        }),
{
    let inside: bool = dir_dot_normal.key > ZERO_KEY;
    let local_normal: Vec3D = if inside {
        surface_normal.neg()
    } else {
        surface_normal
    };
    Intersection { point, distance, local_normal, inside }
}

/// The returned normal always opposes the incoming ray: orienting flips
/// the normal exactly when its dot with the direction lies above `+0.0`,
/// and flipping reverses the dot's key, so the oriented dot never lies
/// above `+0.0`.
pub proof fn lemma_local_normal_opposes_ray(dir_dot_normal: Scalar)
    ensures
        oriented_dot_key(dir_dot_normal.key) <= ZERO_KEY,
{
}

/// The nearest hit among the per-primitive results, resolved exactly as
/// the scan does it: the strictly smallest distance wins, and among
/// equal distances the first seen wins.
pub open spec fn is_first_intersection(hits: Seq<Option<Intersection>>, i: int, hit: Intersection) -> bool {
    &&& 0 <= i < hits.len()
    &&& hits[i] == Some(hit)
    &&& forall|j: int|
        0 <= j < hits.len() ==> match #[trigger] hits[j] {
            Some(other) => hit.distance.key <= other.distance.key,
            None => true,
        }
    &&& forall|j: int|
        0 <= j < i ==> match #[trigger] hits[j] {
            Some(other) => other.distance.key > hit.distance.key,
            None => true,
        }
}

/// The nearest-hit resolution is a function of the per-primitive
/// results alone: at most one index and intersection satisfy it, so the
/// scan's answer does not depend on how the tests were scheduled.
pub proof fn lemma_first_intersection_unique(
    hits: Seq<Option<Intersection>>,
    i1: int,
    h1: Intersection,
    i2: int,
    h2: Intersection,
)
    requires
        is_first_intersection(hits, i1, h1),
        is_first_intersection(hits, i2, h2),
    ensures
        i1 == i2,
        h1 == h2,
{
    assert(hits[i2] matches Some(o) && h1.distance.key <= o.distance.key);
    assert(hits[i1] matches Some(o) && h2.distance.key <= o.distance.key);
    if i1 < i2 {
        assert(hits[i1] matches Some(o) && o.distance.key > h2.distance.key);
    }
    if i2 < i1 {
        assert(hits[i2] matches Some(o) && o.distance.key > h1.distance.key);
    }
}

/// Nearest-hit resolution: every primitive was tested independently and
/// `intersections[i]` holds what the `i`-th test returned. The result is
/// the intersection with the least distance among the successful tests,
/// paired with the index of its primitive; ties fall to the first seen;
/// no hit at all resolves to `None`.
pub fn first_intersection(intersections: &Vec<Option<Intersection>>) -> (r: Option<(Intersection, usize)>)
    ensures
        r is None <==> (forall|j: int| 0 <= j < intersections@.len() ==> (#[trigger] intersections@[j]) is None),
        r matches Some((hit, i)) ==> is_first_intersection(intersections@, i as int, hit),
{
    let num_objects: usize = intersections.len();
    let mut closest: Option<(Intersection, usize)> = None;
    let mut idx: usize = 0;
    while idx < num_objects
        invariant
            num_objects == intersections@.len(),
            idx <= num_objects,
            closest is None <==> (forall|j: int| 0 <= j < idx ==> (#[trigger] intersections@[j]) is None),
            closest matches Some((hit, i)) ==> {
                &&& 0 <= i < idx
                &&& intersections@[i as int] == Some(hit)
                &&& forall|j: int|
                    0 <= j < idx ==> match #[trigger] intersections@[j] {
                        Some(other) => hit.distance.key <= other.distance.key,
                        None => true,
                    }
                &&& forall|j: int|
                    0 <= j < i ==> match #[trigger] intersections@[j] {
                        Some(other) => other.distance.key > hit.distance.key,
                        None => true,
                    }
            },
        decreases num_objects - idx,
    {
        match intersections[idx] {
            Some(intersection) => {
                match closest {
                    Some((best, _)) => {
                        if intersection.distance.key < best.distance.key {
                            closest = Some((intersection, idx));
                        }
                    },
                    None => {
                        closest = Some((intersection, idx));
                    },
                }
            },
            None => {},
        }
        idx = idx + 1;
    }
    closest
}

} // verus!
