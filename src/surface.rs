//! The catalog of parametric surfaces.

use vstd::prelude::*;

verus! {

/// Identifies one entry of the surface catalog. Each entry stands for a pure
/// map `(u, v, t) -> (x, y, z)`:
///
/// - `Wave`: `(u, sin(π(u + v + t)), v)`
/// - `MultiWave`: `(u, [sin(π(u + t/2)) + sin(2π(v + t))/2 + sin(π(u + v + t/4))] / 2.5, v)`
/// - `Ripple`: `(u, sin(π(4d − t)) / (1 + 10d), v)` with `d = √(u² + v²)`
/// - `Sphere`: a sphere of radius `0.9 + 0.1·sin(π(6u + 4v + t))`
/// - `Torus`: a torus of radii `0.7 + 0.1·sin(π(6u + t/2))` and
///   `0.15 + 0.05·sin(π(8u + 4v + 2t))`
#[derive(Clone, Copy, Debug, PartialEq, Eq, Structural)]
pub enum SurfaceFunction {
    Wave,
    MultiWave,
    Ripple,
    Sphere,
    Torus,
}

/// The five surfaces in their usual cycling order.
pub open spec fn standard_sequence() -> Seq<SurfaceFunction> {
    seq![
        SurfaceFunction::Wave,
        SurfaceFunction::MultiWave,
        SurfaceFunction::Ripple,
        SurfaceFunction::Sphere,
        SurfaceFunction::Torus,
    ]
}

/// Builds the standard catalog: wave, multi-wave, ripple, sphere, torus.
pub fn standard_catalog() -> (r: Vec<SurfaceFunction>)
    ensures
        r@ == standard_sequence(),
{
    let r = vec![
        SurfaceFunction::Wave,
        SurfaceFunction::MultiWave,
        SurfaceFunction::Ripple,
        SurfaceFunction::Sphere,
        SurfaceFunction::Torus,
    ];
    assert(r@ =~= standard_sequence());
    r
}

} // verus!
