//! Small fixed-point linear algebra: the 3-component vector used for
//! positions, normals and colours, and the column-major 4x4 matrix used for
//! per-instance model transforms.

use crate::fixed::{
    fx_mul, fx_mul_spec, fx_ok, fxcos, fxcos_spec, fxsin, fxsin_spec, lemma_fx_mul_bound, FX_ONE,
    FX_TURN,
};
use vstd::prelude::*;

verus! {

/// Bound on the operands accepted by [`Vec3::cross`].
pub const CROSS_IN_LIM: i64 = 1_000_000_000;

/// Bound that [`Vec3::cross`] guarantees of its result's entries.
pub const CROSS_OUT_LIM: i64 = 2_000_000_000_000;

/// A vector of three fixed-point scalars.
#[derive(Clone, Copy, Debug, PartialEq, Eq, Structural)]
pub struct Vec3 {
    pub x: i64,
    pub y: i64,
    pub z: i64,
}

impl Vec3 {
    /// All three components are small enough for fixed-point products.
    pub open spec fn wf(self) -> bool {
        fx_ok(self.x) && fx_ok(self.y) && fx_ok(self.z)
    }

    /// Every component's magnitude is at most `m`.
    pub open spec fn bounded(self, m: int) -> bool {
        -m <= self.x <= m && -m <= self.y <= m && -m <= self.z <= m
    }

    pub fn new(x: i64, y: i64, z: i64) -> (v: Vec3)
        ensures
            v == (Vec3 { x, y, z }),
    {
        Vec3 { x, y, z }
    }

    /// Component-wise difference.
    pub fn minus(self, o: Vec3) -> (r: Vec3)
        requires
            self.wf(),
            o.wf(),
        ensures
            r.x == self.x - o.x,
            r.y == self.y - o.y,
            r.z == self.z - o.z,
    {
        Vec3 { x: self.x - o.x, y: self.y - o.y, z: self.z - o.z }
    }

    /// Fixed-point cross product, each entry rescaled by `FX_ONE`.  The
    /// operands must stay within `CROSS_IN_LIM` so that the entry
    /// differences cannot overflow.
    pub fn cross(self, o: Vec3) -> (r: Vec3)
        requires
            self.bounded(CROSS_IN_LIM as int),
            o.bounded(CROSS_IN_LIM as int),
        ensures
            r.x == fx_mul_spec(self.y as int, o.z as int) - fx_mul_spec(self.z as int, o.y as int),
            r.y == fx_mul_spec(self.z as int, o.x as int) - fx_mul_spec(self.x as int, o.z as int),
            r.z == fx_mul_spec(self.x as int, o.y as int) - fx_mul_spec(self.y as int, o.x as int),
            r.bounded(CROSS_OUT_LIM as int),
    {
        proof {
            lemma_fx_mul_bound(self.y as int, o.z as int, CROSS_IN_LIM as int, CROSS_IN_LIM as int);
            lemma_fx_mul_bound(self.z as int, o.y as int, CROSS_IN_LIM as int, CROSS_IN_LIM as int);
            lemma_fx_mul_bound(self.z as int, o.x as int, CROSS_IN_LIM as int, CROSS_IN_LIM as int);
            lemma_fx_mul_bound(self.x as int, o.z as int, CROSS_IN_LIM as int, CROSS_IN_LIM as int);
            lemma_fx_mul_bound(self.x as int, o.y as int, CROSS_IN_LIM as int, CROSS_IN_LIM as int);
            lemma_fx_mul_bound(self.y as int, o.x as int, CROSS_IN_LIM as int, CROSS_IN_LIM as int);
        }
        Vec3 {
            x: fx_mul(self.y, o.z) - fx_mul(self.z, o.y),
            y: fx_mul(self.z, o.x) - fx_mul(self.x, o.z),
            z: fx_mul(self.x, o.y) - fx_mul(self.y, o.x),
        }
    }
}

/// The sixteen entries of the model matrix that translates by
/// `(tx, ty, tz)` after rotating by the given Euler angles (half-turns,
/// already wrapped into one turn), in column-major order.  The rotation
/// entries follow the classic aerospace sequence: with `s`/`c` the sine and
/// cosine of the per-axis angles, column 0 is
/// `(cy cz, cx sz + sx sy cz, sx sz - cx sy cz)`, column 1 is
/// `(-cy sz, cx cz - sx sy sz, sx cz + cx sy sz)` and column 2 is
/// `(sy, -sx cy, cx cy)`; column 3 carries the translation.
pub open spec fn mat4_model_spec(
    tx: int,
    ty: int,
    tz: int,
    rx: int,
    ry: int,
    rz: int,
) -> Seq<int> {
    let sx = fxsin_spec(rx);
    let cx = fxcos_spec(rx);
    let sy = fxsin_spec(ry);
    let cy = fxcos_spec(ry);
    let sz = fxsin_spec(rz);
    let cz = fxcos_spec(rz);
    seq![
        fx_mul_spec(cy, cz),
        fx_mul_spec(cx, sz) + fx_mul_spec(fx_mul_spec(sx, sy), cz),
        fx_mul_spec(sx, sz) - fx_mul_spec(fx_mul_spec(cx, sy), cz),
        0,
        -fx_mul_spec(cy, sz),
        fx_mul_spec(cx, cz) - fx_mul_spec(fx_mul_spec(sx, sy), sz),
        fx_mul_spec(sx, cz) + fx_mul_spec(fx_mul_spec(cx, sy), sz),
        0,
        sy,
        -fx_mul_spec(sx, cy),
        fx_mul_spec(cx, cy),
        0,
        tx,
        ty,
        tz,
        FX_ONE as int,
    ]
}

/// A 4x4 fixed-point matrix in column-major order: entry `(row, col)` is
/// `e[col * 4 + row]`.
#[derive(Clone, Copy, Debug, PartialEq, Eq)]
pub struct Mat4 {
    pub e: [i64; 16],
}

impl Mat4 {
    /// The identity transform.
    pub fn identity() -> (m: Mat4)
        ensures
            forall|i: int|
                0 <= i < 16 ==> m.e@[i] as int == mat4_model_spec(0, 0, 0, 0, 0, 0)[i],
    {
        Self::model(Vec3 { x: 0, y: 0, z: 0 }, 0, 0, 0)
    }

    /// A pure translation by `t`.
    pub fn from_translation(t: Vec3) -> (m: Mat4)
        requires
            t.wf(),
        ensures
            forall|i: int|
                0 <= i < 16 ==> m.e@[i] as int == mat4_model_spec(
                    t.x as int,
                    t.y as int,
                    t.z as int,
                    0,
                    0,
                    0,
                )[i],
    {
        Self::model(t, 0, 0, 0)
    }

    /// The model transform of an instance placed at `t` with the given
    /// Euler rotation: the rotation applied first, the translation after.
    pub fn model(t: Vec3, rx: i64, ry: i64, rz: i64) -> (m: Mat4)
        requires
            t.wf(),
            0 <= rx <= FX_TURN,
            0 <= ry <= FX_TURN,
            0 <= rz <= FX_TURN,
        ensures
            forall|i: int|
                0 <= i < 16 ==> m.e@[i] as int == mat4_model_spec(
                    t.x as int,
                    t.y as int,
                    t.z as int,
                    rx as int,
                    ry as int,
                    rz as int,
                )[i],
    {
        let sx = fxsin(rx);
        let cx = fxcos(rx);
        let sy = fxsin(ry);
        let cy = fxcos(ry);
        let sz = fxsin(rz);
        let cz = fxcos(rz);
        let e: [i64; 16] = [
            fx_mul(cy, cz),
            fx_mul(cx, sz) + fx_mul(fx_mul(sx, sy), cz),
            fx_mul(sx, sz) - fx_mul(fx_mul(cx, sy), cz),
            0,
            -fx_mul(cy, sz),
            fx_mul(cx, cz) - fx_mul(fx_mul(sx, sy), sz),
            fx_mul(sx, cz) + fx_mul(fx_mul(cx, sy), sz),
            0,
            sy,
            -fx_mul(sx, cy),
            fx_mul(cx, cy),
            0,
            t.x,
            t.y,
            t.z,
            FX_ONE,
        ];
        Mat4 { e }
    }
}

} // verus!
