//! Quaternions with exact integer components: the Hamilton product and the rotation of
//! a vector.
use vstd::prelude::*;
use crate::vector::{V3, Vector3, v3_add, v3_cross, v3_dot, v3_fits, v3_scale, cross_fits, dot_fits, fits};

verus! {

/// The mathematical value of a quaternion: vector part `(x, y, z)`, then scalar part `w`.
pub type Q4 = (int, int, int, int);

pub open spec fn q_vec(q: Q4) -> V3 {
    (q.0, q.1, q.2)
}

pub open spec fn q_identity() -> Q4 {
    (0, 0, 0, 1)
}

/// Hamilton product: scalar `aw bw - u·v`, vector `aw v + bw u + u × v`.
pub open spec fn q_mul(a: Q4, b: Q4) -> Q4 {
    let u = q_vec(a);
    let v = q_vec(b);
    let p = v3_add(v3_add(v3_scale(a.3, v), v3_scale(b.3, u)), v3_cross(u, v));
    (p.0, p.1, p.2, a.3 * b.3 - v3_dot(u, v))
}

/// Whether every intermediate value of the Hamilton product fits in an `i64`.
pub open spec fn q_mul_fits(a: Q4, b: Q4) -> bool {
    let u = q_vec(a);
    let v = q_vec(b);
    &&& v3_fits(v3_scale(a.3, v))
    &&& v3_fits(v3_scale(b.3, u))
    &&& v3_fits(v3_add(v3_scale(a.3, v), v3_scale(b.3, u)))
    &&& cross_fits(u, v)
    &&& v3_fits(v3_add(v3_add(v3_scale(a.3, v), v3_scale(b.3, u)), v3_cross(u, v)))
    &&& fits(a.3 * b.3)
    &&& dot_fits(u, v)
    &&& fits(a.3 * b.3 - v3_dot(u, v))
}

/// The rotation of `v` by `q`: with `t = 2 (u × v)`, the result is `v + w t + u × t`.
/// For a unit quaternion this equals `q v q*`.
pub open spec fn q_rotate(q: Q4, v: V3) -> V3 {
    let u = q_vec(q);
    let t = v3_scale(2, v3_cross(u, v));
    v3_add(v3_add(v, v3_scale(q.3, t)), v3_cross(u, t))
}

/// Whether every intermediate value of the rotation fits in an `i64`.
pub open spec fn rotate_fits(q: Q4, v: V3) -> bool {
    let u = q_vec(q);
    let t = v3_scale(2, v3_cross(u, v));
    &&& cross_fits(u, v)
    &&& v3_fits(t)
    &&& v3_fits(v3_scale(q.3, t))
    &&& v3_fits(v3_add(v, v3_scale(q.3, t)))
    &&& cross_fits(u, t)
    &&& v3_fits(q_rotate(q, v))
}

/// A quaternion of exact integer components.
#[derive(Clone, Copy, Debug, PartialEq, Eq, Structural)]
pub struct Quaternion {
    pub x: i64,
    pub y: i64,
    pub z: i64,
    pub w: i64,
}

impl View for Quaternion {
    type V = Q4;

    open spec fn view(&self) -> Q4 {
        (self.x as int, self.y as int, self.z as int, self.w as int)
    }
}

impl Quaternion {
    pub fn new(x: i64, y: i64, z: i64, w: i64) -> (r: Self)
        ensures
            r@ == (x as int, y as int, z as int, w as int),
    {
        Quaternion { x, y, z, w }
    }

    pub fn identity() -> (r: Self)
        ensures
            r@ == q_identity(),
    {
        Quaternion { x: 0, y: 0, z: 0, w: 1 }
    }

    /// The vector part.
    pub fn vector(&self) -> (r: Vector3)
        ensures
            r@ == q_vec(self@),
    {
        Vector3 { x: self.x, y: self.y, z: self.z }
    }

    /// Hamilton product `self * rhs`.
    pub fn mul(&self, rhs: &Self) -> (r: Self)
        requires
            q_mul_fits(self@, rhs@),
        ensures
            r@ == q_mul(self@, rhs@),
    {
        let u = self.vector();
        let v = rhs.vector();
        let p = v.scale(self.w).add(&u.scale(rhs.w)).add(&u.cross(&v));
        let w = self.w * rhs.w - u.dot(&v);
        Quaternion { x: p.x, y: p.y, z: p.z, w }
    }

    /// Rotates `v` by this quaternion.
    pub fn rotate(&self, v: &Vector3) -> (r: Vector3)
        requires
            rotate_fits(self@, v@),
        ensures
            r@ == q_rotate(self@, v@),
    {
        let u = self.vector();
        let t = u.cross(v).scale(2);
        v.add(&t.scale(self.w)).add(&u.cross(&t))
    }
}

} // verus!
