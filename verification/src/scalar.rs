//! Scalars as order keys.

use vstd::prelude::*;

verus! {

/// Key of the double `+0.0` (bit pattern `0`, sign bit flipped).
pub const ZERO_KEY: u64 = 0x8000_0000_0000_0000;

/// Key of the double `1.0` (bit pattern `0x3FF0_0000_0000_0000`).
pub const ONE_KEY: u64 = 0xBFF0_0000_0000_0000;

/// Key of the double `0.01`, the least ray parameter accepted as a hit
/// (bit pattern `0x3F84_7AE1_47AE_147B`); roots below it are rejected so
/// that a ray spawned at a surface cannot immediately hit that surface
/// again.
pub const HIT_EPSILON_KEY: u64 = 0xBF84_7AE1_47AE_147B;

/// A real-valued scalar of the renderer, carried as its order key.
///
/// The arithmetic on these values runs outside this crate on IEEE-754
/// doubles; the decision logic verified here only ever reads a scalar's
/// place in the IEEE total order. A scalar is therefore held as the
/// 64-bit pattern of the double with the sign bit flipped when that bit
/// is clear, and with all bits flipped when it is set. Under this
/// encoding:
///
/// - the key order agrees with `<` on ordinary numbers; `-0.0` lies
///   immediately below `+0.0`, and every NaN lies above `+infinity`, so
///   a comparison against a NaN operand takes the branch of the larger
///   key (the order is total);
/// - negating the double maps a key `k` to `u64::MAX - k` exactly, since
///   IEEE negation only flips the sign bit.
#[derive(Clone, Copy, PartialEq, Eq, Structural, Debug)]
pub struct Scalar {
    pub key: u64,
}

/// The key of the negated value: negation reverses the total order.
pub open spec fn neg_key(k: u64) -> u64 {
    (0xFFFF_FFFF_FFFF_FFFFu64 - k) as u64
}

impl Scalar {
    /// The scalar standing for the negated double.
    pub fn neg(self) -> (r: Scalar)
        ensures
            r.key == neg_key(self.key),
    {
        Scalar { key: 0xFFFF_FFFF_FFFF_FFFFu64 - self.key }
    }
}

} // verus!
