//! Three-component vectors with exact integer components, and their model over `int`.
use vstd::prelude::*;

verus! {

/// The mathematical value of a 3-vector.
pub type V3 = (int, int, int);

/// Whether a mathematical integer can be held by an `i64`.
pub open spec fn fits(x: int) -> bool {
    i64::MIN <= x <= i64::MAX
}

/// Whether every component of a vector can be held by an `i64`.
pub open spec fn v3_fits(a: V3) -> bool {
    fits(a.0) && fits(a.1) && fits(a.2)
}

pub open spec fn v3_zero() -> V3 {
    (0, 0, 0)
}

pub open spec fn v3_add(a: V3, b: V3) -> V3 {
    (a.0 + b.0, a.1 + b.1, a.2 + b.2)
}

pub open spec fn v3_sub(a: V3, b: V3) -> V3 {
    (a.0 - b.0, a.1 - b.1, a.2 - b.2)
}

/// Component-wise product.
pub open spec fn v3_mul(a: V3, b: V3) -> V3 {
    (a.0 * b.0, a.1 * b.1, a.2 * b.2)
}

pub open spec fn v3_scale(s: int, a: V3) -> V3 {
    (s * a.0, s * a.1, s * a.2)
}

pub open spec fn v3_cross(a: V3, b: V3) -> V3 {
    (a.1 * b.2 - a.2 * b.1, a.2 * b.0 - a.0 * b.2, a.0 * b.1 - a.1 * b.0)
}

/// Integer quotient rounded toward zero, as `/` on machine integers rounds.
pub open spec fn quot(a: int, b: int) -> int {
    if (a >= 0) == (b > 0) || a == 0 {
        abs(a) / abs(b)
    } else {
        -(abs(a) / abs(b))
    }
}

pub open spec fn abs(a: int) -> int {
    if a < 0 {
        -a
    } else {
        a
    }
}

/// Component-wise quotient, each rounded toward zero.
pub open spec fn v3_quot(a: V3, b: V3) -> V3 {
    (quot(a.0, b.0), quot(a.1, b.1), quot(a.2, b.2))
}

/// Each component divided by one divisor, rounded toward zero.
pub open spec fn v3_quot_scalar(a: V3, d: int) -> V3 {
    (quot(a.0, d), quot(a.1, d), quot(a.2, d))
}

pub open spec fn v3_dot(a: V3, b: V3) -> int {
    a.0 * b.0 + a.1 * b.1 + a.2 * b.2
}

/// Whether the products and partial sums that a dot product forms fit in an `i64`.
pub open spec fn dot_fits(a: V3, b: V3) -> bool {
    &&& fits(a.0 * b.0) && fits(a.1 * b.1) && fits(a.2 * b.2)
    &&& fits(a.0 * b.0 + a.1 * b.1)
    &&& fits(v3_dot(a, b))
}

/// Whether the six products that a cross product forms, and its result, fit in an `i64`.
pub open spec fn cross_fits(a: V3, b: V3) -> bool {
    &&& fits(a.1 * b.2) && fits(a.2 * b.1)
    &&& fits(a.2 * b.0) && fits(a.0 * b.2)
    &&& fits(a.0 * b.1) && fits(a.1 * b.0)
    &&& v3_fits(v3_cross(a, b))
}

/// A 3-vector of exact integer components, in units chosen by the caller.
#[derive(Clone, Copy, Debug, PartialEq, Eq, Structural)]
pub struct Vector3 {
    pub x: i64,
    pub y: i64,
    pub z: i64,
}

impl View for Vector3 {
    type V = V3;

    open spec fn view(&self) -> V3 {
        (self.x as int, self.y as int, self.z as int)
    }
}

/// Quotient of machine integers, rounded toward zero.
fn div_i64(a: i64, b: i64) -> (r: i64)
    requires
        b != 0,
        fits(quot(a as int, b as int)),
    ensures
        r == quot(a as int, b as int),
{
    let wa = a as i128;
    let wb = b as i128;
    let na: i128 = if wa < 0 { -wa } else { wa };
    let nb: i128 = if wb < 0 { -wb } else { wb };
    let q: i128 = na / nb;
    if (a >= 0) == (b > 0) || a == 0 {
        q as i64
    } else {
        (-q) as i64
    }
}

impl Vector3 {
    pub fn new(x: i64, y: i64, z: i64) -> (r: Self)
        ensures
            r@ == (x as int, y as int, z as int),
    {
        Vector3 { x, y, z }
    }

    pub fn zeros() -> (r: Self)
        ensures
            r@ == v3_zero(),
    {
        Vector3 { x: 0, y: 0, z: 0 }
    }

    pub fn add(&self, o: &Self) -> (r: Self)
        requires
            v3_fits(v3_add(self@, o@)),
        ensures
            r@ == v3_add(self@, o@),
    {
        Vector3 { x: self.x + o.x, y: self.y + o.y, z: self.z + o.z }
    }

    pub fn sub(&self, o: &Self) -> (r: Self)
        requires
            v3_fits(v3_sub(self@, o@)),
        ensures
            r@ == v3_sub(self@, o@),
    {
        Vector3 { x: self.x - o.x, y: self.y - o.y, z: self.z - o.z }
    }

    /// Component-wise product.
    pub fn mul_elem(&self, o: &Self) -> (r: Self)
        requires
            v3_fits(v3_mul(self@, o@)),
        ensures
            r@ == v3_mul(self@, o@),
    {
        Vector3 { x: self.x * o.x, y: self.y * o.y, z: self.z * o.z }
    }

    pub fn scale(&self, s: i64) -> (r: Self)
        requires
            v3_fits(v3_scale(s as int, self@)),
        ensures
            r@ == v3_scale(s as int, self@),
    {
        Vector3 { x: s * self.x, y: s * self.y, z: s * self.z }
    }

    pub fn cross(&self, o: &Self) -> (r: Self)
        requires
            cross_fits(self@, o@),
        ensures
            r@ == v3_cross(self@, o@),
    {
        Vector3 {
            x: self.y * o.z - self.z * o.y,
            y: self.z * o.x - self.x * o.z,
            z: self.x * o.y - self.y * o.x,
        }
    }

    pub fn dot(&self, o: &Self) -> (r: i64)
        requires
            dot_fits(self@, o@),
        ensures
            r == v3_dot(self@, o@),
    {
        self.x * o.x + self.y * o.y + self.z * o.z
    }

    /// Component-wise quotient, each rounded toward zero.
    pub fn div_elem(&self, o: &Self) -> (r: Self)
        requires
            o.x != 0 && o.y != 0 && o.z != 0,
            v3_fits(v3_quot(self@, o@)),
        ensures
            r@ == v3_quot(self@, o@),
    {
        Vector3 { x: div_i64(self.x, o.x), y: div_i64(self.y, o.y), z: div_i64(self.z, o.z) }
    }

    /// Each component divided by `d`, rounded toward zero.
    pub fn div_scalar(&self, d: i64) -> (r: Self)
        requires
            d != 0,
            v3_fits(v3_quot_scalar(self@, d as int)),
        ensures
            r@ == v3_quot_scalar(self@, d as int),
    {
        Vector3 { x: div_i64(self.x, d), y: div_i64(self.y, d), z: div_i64(self.z, d) }
    }
}

} // verus!
