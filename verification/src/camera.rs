//! The camera: a spherical position orbiting a look-at point.
//!
//! User input rotates the position horizontally (azimuth) and vertically
//! (polar angle); a window resize updates the projection's aspect ratio.
//! Deriving and uploading the view and projection matrices from this
//! state is the GPU layer's job; every mutation here is exact.

use crate::coords::SphericalPoint3;
use crate::fixed::{fx_wrap_angle, FX_TURN};
use crate::linear::Vec3;
use vstd::prelude::*;

verus! {

/// The scene's camera: where it stands (spherically, around the origin),
/// what it looks at, and the window it projects into.
#[derive(Clone, Copy, Debug, PartialEq, Eq, Structural)]
pub struct Camera {
    pub position: SphericalPoint3<i64>,
    pub look_at: Vec3,
    pub window_width: u32,
    pub window_height: u32,
}

impl Camera {
    /// The camera's invariant: its spherical position stays wrapped.
    pub open spec fn wf(self) -> bool {
        self.position.wf()
    }

    pub fn new(position: SphericalPoint3<i64>, look_at: Vec3, window_width: u32, window_height:
        u32) -> (c: Camera)
        requires
            position.wf(),
        ensures
            c == (Camera { position, look_at, window_width, window_height }),
            c.wf(),
    {
        Camera { position, look_at, window_width, window_height }
    }

    /// Adopts the window's new size; the position is untouched.
    pub fn on_window_resize(&mut self, window_width: u32, window_height: u32)
        ensures
            *final(self) == (Camera { window_width, window_height, ..*old(self) }),
    {
        self.window_width = window_width;
        self.window_height = window_height;
    }

    /// Swings the camera around the vertical axis: the azimuth advances by
    /// `angle` half-turns, wrapped into one turn.
    pub fn rotate_horizontally(&mut self, angle: i64)
        requires
            old(self).wf(),
            -FX_TURN <= angle < FX_TURN,
        ensures
            final(self).position.phi == (old(self).position.phi + angle) % (FX_TURN as int),
            final(self).position.r == old(self).position.r,
            final(self).position.theta == old(self).position.theta,
            final(self).look_at == old(self).look_at,
            final(self).window_width == old(self).window_width,
            final(self).window_height == old(self).window_height,
            final(self).wf(),
    {
        self.position.phi = fx_wrap_angle(self.position.phi + angle);
    }

    /// Tilts the camera: the polar angle advances by `angle` half-turns,
    /// wrapped into one turn.
    pub fn rotate_vertically(&mut self, angle: i64)
        requires
            old(self).wf(),
            -FX_TURN <= angle < FX_TURN,
        ensures
            final(self).position.theta == (old(self).position.theta + angle) % (FX_TURN as int),
            final(self).position.r == old(self).position.r,
            final(self).position.phi == old(self).position.phi,
            final(self).look_at == old(self).look_at,
            final(self).window_width == old(self).window_width,
            final(self).window_height == old(self).window_height,
            final(self).wf(),
    {
        self.position.theta = fx_wrap_angle(self.position.theta + angle);
    }
}

} // verus!
