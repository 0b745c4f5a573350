//! Surface kinds and the scattering decisions each of them takes.

use vstd::prelude::*;

use crate::linalg::Vec3D;
use crate::scalar::Scalar;
use crate::scalar::ONE_KEY;
use crate::scalar::ZERO_KEY;

verus! {

/// The closed set of surface kinds. A fuzzy reflector carries its fuzz
/// factor, a dielectric its index of refraction; both are scalars the
/// scattering arithmetic reads outside this crate.
#[derive(Clone, Copy, PartialEq, Eq, Structural, Debug)]
pub enum Surface {
    Diffuse,
    Reflective,
    FuzzyReflective(Scalar),
    Refractive(Scalar),
}

/// A surface kind together with the albedo that attenuates whatever the
/// bounced ray brings back.
#[derive(Clone, Copy, PartialEq, Eq, Structural, Debug)]
pub struct Material {
    pub color: Vec3D,
    pub surface: Surface,
}

/// What a dielectric does with an incoming ray once the geometry of the
/// hit is known: bend it by Snell's law, or mirror it.
#[derive(Clone, Copy, PartialEq, Eq, Structural, Debug)]
pub enum RefractionChoice {
    Reflect,
    Refract,
}

/// The dielectric branch: reflection is forced when the product of the
/// index ratio and the sine of the incidence angle lies above one (total
/// internal reflection); otherwise a uniform roll below the Fresnel
/// reflectivity picks reflection, and any other roll refracts.
pub open spec fn spec_refraction_choice(ratio_sin: Scalar, reflectivity: Scalar, roll: Scalar) -> RefractionChoice {
    if ratio_sin.key > ONE_KEY || roll.key < reflectivity.key {
        RefractionChoice::Reflect
    } else {
        RefractionChoice::Refract
    }
}

/// The index ratio a dielectric refracts with: the material's own index
/// when the ray runs inside the volume, its reciprocal when the ray
/// comes from outside. Both candidates are computed by the caller; this
/// is the choice between them.
pub fn select_index_ratio(inside: bool, index: Scalar, inverse_index: Scalar) -> (r: Scalar)
    ensures
        r == (if inside {
            index
        } else {
            inverse_index
        }),
{
    if inside {
        index
    } else {
        inverse_index
    }
}

/// Decides whether a dielectric hit reflects or refracts, from the keys
/// of `index_ratio * sin_theta1`, the Schlick reflectivity, and the
/// uniform roll in `[0, 1)`.
pub fn refraction_choice(ratio_sin: Scalar, reflectivity: Scalar, roll: Scalar) -> (c: RefractionChoice)
    ensures
        c == spec_refraction_choice(ratio_sin, reflectivity, roll),
        c is Reflect <==> (ratio_sin.key > ONE_KEY || roll.key < reflectivity.key),
        ratio_sin.key > ONE_KEY ==> c is Reflect,
{
    if ratio_sin.key > ONE_KEY || roll.key < reflectivity.key {
        RefractionChoice::Reflect
    } else {
        RefractionChoice::Refract
    }
}

/// A fuzzy reflection whose perturbed direction does not leave the
/// surface — its dot with the oriented normal does not lie above `+0.0`
/// — is absorbed and contributes no radiance.
pub fn fuzzy_reflection_absorbed(scatter_dot_normal: Scalar) -> (r: bool)
    ensures
        r == (scatter_dot_normal.key <= ZERO_KEY),
{
    scatter_dot_normal.key <= ZERO_KEY
}

/// Total internal reflection happens exactly above the critical angle:
/// a ratio-sine product above one forces a mirror reflection whatever
/// the roll, and at or below one a reflection can only come from the
/// stochastic Fresnel roll — never from the geometry.
pub proof fn lemma_total_internal_reflection(ratio_sin: Scalar, reflectivity: Scalar, roll: Scalar)
    ensures
        ratio_sin.key > ONE_KEY ==> spec_refraction_choice(ratio_sin, reflectivity, roll) is Reflect,
        ratio_sin.key <= ONE_KEY && spec_refraction_choice(ratio_sin, reflectivity, roll) is Reflect
            ==> roll.key < reflectivity.key,
        ratio_sin.key <= ONE_KEY && roll.key >= reflectivity.key
            ==> spec_refraction_choice(ratio_sin, reflectivity, roll) is Refract,
{
}

} // verus!
