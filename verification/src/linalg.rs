//! The tracer's vector type and the comparison scans taken on it.

use vstd::prelude::*;

use crate::scalar::neg_key;
use crate::scalar::Scalar;
use crate::scalar::ONE_KEY;

verus! {

/// A triple of scalars standing for a point, a direction or a color.
///
/// The componentwise arithmetic on vectors runs outside this crate; what
/// is verified here are the operations that read or reverse the order of
/// the components: negation (exact on doubles), the maximum-component
/// scan and the componentwise clamp.
#[derive(Clone, Copy, PartialEq, Eq, Structural, Debug)]
pub struct Vec3D(pub Scalar, pub Scalar, pub Scalar);

/// The key-order maximum of two keys.
pub open spec fn max_key(a: u64, b: u64) -> u64 {
    if a >= b {
        a
    } else {
        b
    }
}

/// A key clamped into `[lo, hi]` in the key order, the way a chained
/// `max(lo)`/`min(hi)` clamps: the lower bound is applied first, so with
/// `hi < lo` the result is `hi`.
pub open spec fn clamp_key(k: u64, lo: u64, hi: u64) -> u64 {
    if max_key(k, lo) <= hi {
        max_key(k, lo)
    } else {
        hi
    }
}

impl Vec3D {
    /// The componentwise negation: each component's key is reversed,
    /// exactly as IEEE negation reverses the order of doubles.
    pub open spec fn neg_spec(self) -> Vec3D {
        Vec3D(
            Scalar { key: neg_key(self.0.key) },
            Scalar { key: neg_key(self.1.key) },
            Scalar { key: neg_key(self.2.key) },
        )
    }

    /// The vector standing for the componentwise negation.
    pub fn neg(self) -> (r: Vec3D)
        ensures
            r == self.neg_spec(),
    {
        Vec3D(self.0.neg(), self.1.neg(), self.2.neg())
    }

    /// The largest component in the key order, found by the same scan the
    /// color post-processing divides by: start at the first component and
    /// replace it whenever a later one lies strictly above.
    pub fn max_component(self) -> (r: Scalar)
        ensures
            r.key == max_key(max_key(self.0.key, self.1.key), self.2.key),
    {
        let mut max: Scalar = self.0;
        if self.1.key > max.key {
            max = self.1;
        }
        if self.2.key > max.key {
            max = self.2;
        }
        max
    }

    /// Each component clamped into `[min, max]` in the key order.
    pub fn clamp(self, min: Scalar, max: Scalar) -> (r: Vec3D)
        ensures
            r.0.key == clamp_key(self.0.key, min.key, max.key),
            r.1.key == clamp_key(self.1.key, min.key, max.key),
            r.2.key == clamp_key(self.2.key, min.key, max.key),
    {
        Vec3D(
            clamp_scalar(self.0, min, max),
            clamp_scalar(self.1, min, max),
            clamp_scalar(self.2, min, max),
        )
    }
}

/// One component of the clamp: raise to `min`, then cap at `max`.
fn clamp_scalar(s: Scalar, min: Scalar, max: Scalar) -> (r: Scalar)
    ensures
        r.key == clamp_key(s.key, min.key, max.key),
{
    let raised: Scalar = if s.key >= min.key {
        s
    } else {
        min
    };
    if raised.key <= max.key {
        raised
    } else {
        max
    }
}

/// The acceptance test of the rejection sampler behind every random unit
/// or in-disk vector: a draw from the cube is kept exactly when its
/// squared length lies strictly below one.
pub fn sample_in_unit_ball(norm_squared: Scalar) -> (r: bool)
    ensures
        r == (norm_squared.key < ONE_KEY),
{
    norm_squared.key < ONE_KEY
}

} // verus!
