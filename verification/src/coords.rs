//! Spherical coordinates.
//!
//! The coordinate system is as in OpenGL: X to the right, Y up, Z toward
//! the camera, right-handed.  `r` is the distance from the origin, `theta`
//! the polar angle down from the positive Y axis, and `phi` the azimuth
//! from the positive Z axis; both angles are fixed-point half-turns.

use crate::fixed::{fx_abs, fx_mul, fx_mul_spec, fx_ok, fxcos, fxcos_spec, fxsin, fxsin_spec, FX_TURN};
use crate::linear::Vec3;
use vstd::prelude::*;

verus! {

/// A point in 3-dimensional space, in spherical rather than cartesian
/// coordinates.
#[derive(Clone, Copy, Debug, PartialEq, Eq, Structural)]
pub struct SphericalPoint3<T> {
    pub r: T,
    pub theta: T,
    pub phi: T,
}

impl<T> SphericalPoint3<T> {
    pub fn new(r: T, theta: T, phi: T) -> (p: SphericalPoint3<T>)
        ensures
            p == (SphericalPoint3 { r, theta, phi }),
    {
        SphericalPoint3 { r, theta, phi }
    }
}

impl SphericalPoint3<i64> {
    /// Both angles are wrapped into one turn and the radius is in range.
    pub open spec fn wf(self) -> bool {
        &&& fx_ok(self.r)
        &&& 0 <= self.theta < FX_TURN
        &&& 0 <= self.phi < FX_TURN
    }

    /// The cartesian point: `x = r sin(theta) sin(phi)`,
    /// `y = r cos(theta)`, `z = r sin(theta) cos(phi)`.
    pub fn to_cartesian(&self) -> (p: Vec3)
        requires
            self.wf(),
        ensures
            p.x == fx_mul_spec(
                fx_mul_spec(self.r as int, fxsin_spec(self.theta as int)),
                fxsin_spec(self.phi as int),
            ),
            p.y == fx_mul_spec(self.r as int, fxcos_spec(self.theta as int)),
            p.z == fx_mul_spec(
                fx_mul_spec(self.r as int, fxsin_spec(self.theta as int)),
                fxcos_spec(self.phi as int),
            ),
            p.bounded(fx_abs(self.r as int)),
    {
        let sin_t = fxsin(self.theta);
        let cos_t = fxcos(self.theta);
        let sin_p = fxsin(self.phi);
        let cos_p = fxcos(self.phi);
        let horizontal = fx_mul(self.r, sin_t);
        Vec3 {
            x: fx_mul(horizontal, sin_p),
            y: fx_mul(self.r, cos_t),
            z: fx_mul(horizontal, cos_p),
        }
    }
}

} // verus!
