//! The material table: an append-only registry of lighting materials with
//! a hard capacity, mirrored verbatim into a fixed-size GPU-visible table.

use crate::fixed::fx_ok;
use crate::linear::Vec3;
use vstd::prelude::*;

verus! {

/// A dense handle into the material table, assigned at registration.
pub type MaterialId = u32;

/// Hard capacity of the material table; its GPU-side storage is sized once
/// and never grows.
pub const MAX_MATERIALS: usize = 100;

/// The error returned when one more material than the capacity is
/// registered; the table is left untouched.
#[derive(Clone, Copy, Debug, PartialEq, Eq, Structural)]
pub struct TableFull;

/// A Phong lighting material; colour components are fixed-point scalars.
#[derive(Clone, Copy, Debug, PartialEq, Eq, Structural)]
pub struct Material {
    pub ambient: Vec3,
    pub diffuse: Vec3,
    pub specular: Vec3,
    pub shininess: i64,
}

impl Material {
    pub open spec fn wf(self) -> bool {
        self.ambient.wf() && self.diffuse.wf() && self.specular.wf() && fx_ok(self.shininess)
    }

    /// Bytes one material occupies in the GPU-side table: three
    /// 16-byte-aligned vectors of 32-bit floats (the shininess rides in the
    /// fourth component of the specular vector).
    pub fn size() -> (r: usize)
        ensures
            r == 48,
    {
        48
    }

    /// The twelve 32-bit slots of one table entry, in upload order: the
    /// ambient, diffuse and specular vectors each padded to four slots,
    /// with the shininess in the specular vector's fourth slot.
    pub open spec fn words(self) -> Seq<i64> {
        seq![
            self.ambient.x,
            self.ambient.y,
            self.ambient.z,
            0i64,
            self.diffuse.x,
            self.diffuse.y,
            self.diffuse.z,
            0i64,
            self.specular.x,
            self.specular.y,
            self.specular.z,
            self.shininess,
        ]
    }
}

/// The append-only material registry.
pub struct Materials {
    pub materials: Vec<Material>,
}

impl Materials {
    /// An empty table.
    pub fn setup() -> (m: Materials)
        ensures
            m.materials@.len() == 0,
    {
        Materials { materials: Vec::new() }
    }

    /// How many materials have been registered.
    pub fn count(&self) -> (r: usize)
        ensures
            r == self.materials@.len(),
    {
        self.materials.len()
    }

    /// Registers one more material: appends it and returns its id, the
    /// index of the new entry; a full table is left unchanged and reported.
    pub fn add(&mut self, material: Material) -> (r: Result<MaterialId, TableFull>)
        ensures
            match r {
                Ok(id) => {
                    &&& old(self).materials@.len() < MAX_MATERIALS as int
                    &&& id as int == old(self).materials@.len()
                    &&& final(self).materials@ =~= old(self).materials@.push(material)
                },
                Err(_) => {
                    &&& old(self).materials@.len() >= MAX_MATERIALS as int
                    &&& final(self).materials@ =~= old(self).materials@
                },
            },
    {
        if self.materials.len() < MAX_MATERIALS {
            let id: u32 = self.materials.len() as u32;
            self.materials.push(material);
            Ok(id)
        } else {
            Err(TableFull)
        }
    }

    /// The packed table: twelve 32-bit slots per registered material, in
    /// registration order, as the material uniform block consumes them.
    pub fn packed(&self) -> (r: Vec<i64>)
        ensures
            r@.len() == 12 * self.materials@.len(),
            forall|k: int|
                0 <= k < self.materials@.len() ==> r@.subrange(12 * k, 12 * k + 12)
                    =~= self.materials@[k].words(),
    {
        let mut r: Vec<i64> = Vec::new();
        let n = self.materials.len();
        let mut i: usize = 0;
        while i < n
            invariant
                n == self.materials@.len(),
                0 <= i <= n,
                r@.len() == 12 * i,
                forall|k: int|
                    0 <= k < i ==> r@.subrange(12 * k, 12 * k + 12) =~= self.materials@[k].words(),
            decreases n - i,
        {
            let m = self.materials[i];
            r.push(m.ambient.x);
            r.push(m.ambient.y);
            r.push(m.ambient.z);
            r.push(0);
            r.push(m.diffuse.x);
            r.push(m.diffuse.y);
            r.push(m.diffuse.z);
            r.push(0);
            r.push(m.specular.x);
            r.push(m.specular.y);
            r.push(m.specular.z);
            r.push(m.shininess);
            i = i + 1;
        }
        r
    }
}

} // verus!
