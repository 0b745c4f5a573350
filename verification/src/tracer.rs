//! The control of the recursive radiance estimator: what each bounce of
//! the depth-limited trace decides, given the outcome of the nearest-hit
//! scan and of the material's scattering.

use vstd::prelude::*;

use crate::materials::Surface;
use crate::scalar::Scalar;
use crate::scalar::ZERO_KEY;

verus! {

/// What one level of the trace observed: either no primitive was hit, or
/// a hit on some surface kind, together with the key of the dot product
/// of the candidate outgoing direction with the oriented normal (read
/// only for a fuzzy reflector, whose perturbed bounce may fall back into
/// the surface).
#[derive(Clone, Copy, PartialEq, Eq, Structural, Debug)]
pub enum TraceEvent {
    Miss,
    Hit { surface: Surface, scatter_dot_normal: Scalar },
}

/// What one level of the trace does next.
#[derive(Clone, Copy, PartialEq, Eq, Structural, Debug)]
pub enum TraceStep {
    /// The depth budget is exhausted: the ray is presumed absorbed and
    /// contributes black.
    Black,
    /// No primitive was hit: shade with the background gradient of the
    /// ray's vertical direction component.
    Background,
    /// A fuzzy reflection fell back into the surface: absorbed, black,
    /// no recursion.
    Absorbed,
    /// Trace the outgoing ray one level deeper and attenuate what it
    /// brings back by the material's albedo, componentwise.
    Bounce,
}

/// The decision one level of the trace takes: the depth budget is
/// checked first, a miss shades the background, a fuzzy bounce into the
/// surface is absorbed, and every other hit recurses on the scattered
/// ray.
pub open spec fn spec_trace_step(depth: u64, event: TraceEvent) -> TraceStep {
    if depth == 0 {
        TraceStep::Black
    } else {
        match event {
            TraceEvent::Miss => TraceStep::Background,
            TraceEvent::Hit { surface, scatter_dot_normal } => {
                if surface is FuzzyReflective && scatter_dot_normal.key <= ZERO_KEY {
                    TraceStep::Absorbed
                } else {
                    TraceStep::Bounce
                }
            },
        }
    }
}

/// Decides what one level of the trace does; the caller carries out the
/// arithmetic of the step it returns and, on `Bounce`, calls back in
/// with the next event and `depth - 1`.
pub fn trace_step(depth: u64, event: TraceEvent) -> (s: TraceStep)
    ensures
        s == spec_trace_step(depth, event),
        depth == 0 ==> s is Black,
        depth > 0 && event is Miss ==> s is Background,
        s is Bounce ==> depth > 0 && event is Hit,
{
    if depth == 0 {
        TraceStep::Black
    } else {
        match event {
            TraceEvent::Miss => TraceStep::Background,
            TraceEvent::Hit { surface, scatter_dot_normal } => {
                let absorbed: bool = crate::materials::fuzzy_reflection_absorbed(scatter_dot_normal);
                if matches!(surface, Surface::FuzzyReflective(_)) && absorbed {
                    TraceStep::Absorbed
                } else {
                    TraceStep::Bounce
                }
            },
        }
    }
}

/// A trace through a world with no primitives always misses, and any
/// remaining depth budget shades the ray with the background gradient —
/// the budget's size never changes that.
pub proof fn lemma_empty_world_shades_background(depth: u64)
    requires
        depth >= 1,
    ensures
        spec_trace_step(depth, TraceEvent::Miss) is Background,
{
}

} // verus!
