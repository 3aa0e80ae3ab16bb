//! Scattering: what each of the three surface models does with a ray.

use vstd::prelude::*;

verus! {

/// The surface models. The numeric parameters of a surface (albedo, fuzz,
/// index of refraction) stay with the caller; the model alone decides the
/// shape of the answer.
#[derive(Clone, Copy, Debug, PartialEq, Eq, Hash)]
pub enum Material {
    /// A diffuse surface.
    Lambertian,
    /// A mirror, roughened by its fuzz.
    Metal,
    /// A clear refracting surface such as glass.
    Dielectric,
}

/// What was measured where the ray meets the surface. Each model reads only
/// the measurements that concern it.
#[derive(Clone, Copy, Debug, PartialEq, Eq, Hash)]
pub struct Incidence {
    /// The surface normal plus the random unit vector is too short to serve
    /// as a direction (read by `Lambertian`).
    pub degenerate: bool,
    /// The mirrored direction, after the fuzz was added, has a positive dot
    /// product with the surface normal (read by `Metal`).
    pub leaves_surface: bool,
    /// The refraction ratio times the sine of the angle of incidence is
    /// greater than one: total internal reflection (read by `Dielectric`).
    pub cannot_refract: bool,
    /// The Schlick reflectance at this angle is greater than the uniform
    /// draw made for this hit (read by `Dielectric`, and only where
    /// refraction is possible).
    pub reflectance_wins: bool,
}

/// The colour by which a surface multiplies the light that it passes on.
#[derive(Clone, Copy, Debug, PartialEq, Eq, Hash)]
pub enum Tint {
    /// The albedo of the surface.
    Albedo,
    /// White: nothing is taken away.
    White,
}

/// The rule that gives the direction of the scattered ray.
#[derive(Clone, Copy, Debug, PartialEq, Eq, Hash)]
pub enum Outgoing {
    /// The surface normal plus the random unit vector.
    Diffuse,
    /// The surface normal itself.
    Normal,
    /// The mirror image of the incoming direction, plus the fuzz times a
    /// random point of the unit ball.
    FuzzedMirror,
    /// The mirror image of the incoming direction.
    Mirror,
    /// The incoming direction bent by Snell's law.
    Refracted,
}

/// A scattered ray, as far as the surface model decides it. It starts at
/// the point that was hit.
#[derive(Clone, Copy, Debug, PartialEq, Eq, Hash)]
pub struct Scatter {
    pub attenuation: Tint,
    pub direction: Outgoing,
}

impl Material {
    /// The answer of this surface model to what was measured; `None` means
    /// that the ray is absorbed.
    pub open spec fn scattered(self, seen: Incidence) -> Option<Scatter> {
        match self {
            Material::Lambertian => Some(
                Scatter {
                    attenuation: Tint::Albedo,
                    direction: if seen.degenerate {
                        Outgoing::Normal
                    } else {
                        Outgoing::Diffuse
                    },
                },
            ),
            Material::Metal => if seen.leaves_surface {
                Some(Scatter { attenuation: Tint::Albedo, direction: Outgoing::FuzzedMirror })
            } else {
                None
            },
            Material::Dielectric => Some(
                Scatter {
                    attenuation: Tint::White,
                    direction: if seen.cannot_refract || seen.reflectance_wins {
                        Outgoing::Mirror
                    } else {
                        Outgoing::Refracted
                    },
                },
            ),
        }
    }

    /// Decides what the surface does with the ray: the tint and the rule for
    /// the new direction, or `None` where the ray is absorbed.
    ///
    /// A diffuse surface and a dielectric always scatter; a metal absorbs
    /// exactly the rays whose fuzzed mirror direction does not leave the
    /// surface. A dielectric never tints.
    pub fn scatter(&self, seen: &Incidence) -> (r: Option<Scatter>)
        ensures
            r == self.scattered(*seen),
            r is None <==> (*self is Metal && !seen.leaves_surface),
            r matches Some(s) ==> (s.attenuation is White <==> *self is Dielectric),
    {
        match self {
            Material::Lambertian => {
                let direction = if seen.degenerate {
                    Outgoing::Normal
                } else {
                    Outgoing::Diffuse
                };
                Some(Scatter { attenuation: Tint::Albedo, direction })
            },
            Material::Metal => {
                if seen.leaves_surface {
                    Some(Scatter { attenuation: Tint::Albedo, direction: Outgoing::FuzzedMirror })
                } else {
                    None
                }
            },
            Material::Dielectric => {
                let direction = if seen.cannot_refract || seen.reflectance_wins {
                    Outgoing::Mirror
                } else {
                    Outgoing::Refracted
                };
                Some(Scatter { attenuation: Tint::White, direction })
            },
        }
    }
}

} // verus!
