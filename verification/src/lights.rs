//! The light table: a handful of point lights set up once at scene start
//! and uploaded to a fixed-size uniform block.

use crate::linear::Vec3;
use vstd::prelude::*;

verus! {

/// Most lights the scene supports; the uniform block is sized for exactly
/// this many.
pub const MAX_LIGHTS: usize = 4;

/// One point light and its Phong colour components.
#[derive(Clone, Copy, Debug, PartialEq, Eq, Structural)]
pub struct Light {
    pub position: Vec3,
    pub ambient: Vec3,
    pub diffuse: Vec3,
    pub specular: Vec3,
}

impl Light {
    /// The sixteen 32-bit slots of one light: its position and three
    /// colour vectors, each padded to four slots.
    pub open spec fn words(self) -> Seq<i64> {
        seq![
            self.position.x,
            self.position.y,
            self.position.z,
            0i64,
            self.ambient.x,
            self.ambient.y,
            self.ambient.z,
            0i64,
            self.diffuse.x,
            self.diffuse.y,
            self.diffuse.z,
            0i64,
            self.specular.x,
            self.specular.y,
            self.specular.z,
            0i64,
        ]
    }
}

/// The scene's lights, in the order they were added.
pub struct Lights {
    pub lights: Vec<Light>,
}

impl Lights {
    /// An empty light table.
    pub fn setup() -> (l: Lights)
        ensures
            l.lights@.len() == 0,
    {
        Lights { lights: Vec::new() }
    }

    /// How many lights have been added.
    pub fn count(&self) -> (r: usize)
        ensures
            r == self.lights@.len(),
    {
        self.lights.len()
    }

    /// Adds one light; the table was sized once, so the caller keeps the
    /// count within `MAX_LIGHTS`.
    pub fn add(&mut self, position: Vec3, ambient: Vec3, diffuse: Vec3, specular: Vec3)
        requires
            old(self).lights@.len() < MAX_LIGHTS as int,
        ensures
            final(self).lights@ =~= old(self).lights@.push(
                Light { position, ambient, diffuse, specular },
            ),
    {
        self.lights.push(Light { position, ambient, diffuse, specular });
    }

    /// The packed light block: sixteen 32-bit slots per light, in the
    /// order they were added.
    pub fn packed(&self) -> (r: Vec<i64>)
        ensures
            r@.len() == 16 * self.lights@.len(),
            forall|k: int|
                0 <= k < self.lights@.len() ==> r@.subrange(16 * k, 16 * k + 16)
                    =~= self.lights@[k].words(),
    {
        let mut r: Vec<i64> = Vec::new();
        let n = self.lights.len();
        let mut i: usize = 0;
        while i < n
            invariant
                n == self.lights@.len(),
                0 <= i <= n,
                r@.len() == 16 * i,
                forall|k: int|
                    0 <= k < i ==> r@.subrange(16 * k, 16 * k + 16) =~= self.lights@[k].words(),
            decreases n - i,
        {
            let l = self.lights[i];
            r.push(l.position.x);
            r.push(l.position.y);
            r.push(l.position.z);
            r.push(0);
            r.push(l.ambient.x);
            r.push(l.ambient.y);
            r.push(l.ambient.z);
            r.push(0);
            r.push(l.diffuse.x);
            r.push(l.diffuse.y);
            r.push(l.diffuse.z);
            r.push(0);
            r.push(l.specular.x);
            r.push(l.specular.y);
            r.push(l.specular.z);
            r.push(0);
            i = i + 1;
        }
        r
    }
}

} // verus!
