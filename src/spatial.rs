//! Rigid-body dynamics in Featherstone's spatial vector algebra, over exact integer
//! components.
//!
//! A spatial transform packs an orientation quaternion and a position (7 components);
//! a spatial motion packs an angular and a linear velocity, a spatial force a torque and
//! a force (6 components each); a spatial inertia packs a diagonalised moment of inertia,
//! a momentum and a mass (7 components).
use vstd::prelude::*;
use vstd::arithmetic::mul::{
    lemma_mul_is_associative, lemma_mul_is_commutative, lemma_mul_is_distributive_add,
    lemma_mul_is_distributive_sub,
};
use crate::error::ConfigurationError;
use crate::quaternion::{Q4, Quaternion, q_mul, q_mul_fits, q_rotate, rotate_fits, q_identity};
use crate::sym3::{
    Sym3, sym_mul, adjugate, det, fits128, ms_fits128, dot_fits128, mul_sub128, dot128, quot128,
    lemma_adjugate_mul,
};
use crate::vector::{
    V3, Vector3, v3_add, v3_sub, v3_mul, v3_scale, v3_cross, v3_quot, v3_quot_scalar, v3_fits,
    v3_zero, cross_fits, fits, quot, abs,
};

verus! {

/// Value of a spatial transform: orientation, then position.
pub type TransformV = (Q4, V3);

/// Value of a spatial motion: angular velocity, then linear velocity.
pub type MotionV = (V3, V3);

/// Value of a spatial force: torque, then force.
pub type ForceV = (V3, V3);

/// Value of a spatial inertia: diagonal inertia, momentum, mass.
pub type InertiaV = (V3, V3, int);

pub open spec fn v3_at6(a: [i64; 6], k: int) -> V3 {
    (a[k] as int, a[k + 1] as int, a[k + 2] as int)
}

pub open spec fn v3_at7(a: [i64; 7], k: int) -> V3 {
    (a[k] as int, a[k + 1] as int, a[k + 2] as int)
}

/// Composition of transforms: orientations multiply; the position of `b` is rotated by
/// the orientation of `a`, then added to the position of `a`.
pub open spec fn compose(a: TransformV, b: TransformV) -> TransformV {
    (q_mul(a.0, b.0), v3_add(a.1, q_rotate(a.0, b.1)))
}

pub open spec fn compose_fits(a: TransformV, b: TransformV) -> bool {
    &&& q_mul_fits(a.0, b.0)
    &&& rotate_fits(a.0, b.1)
    &&& v3_fits(compose(a, b).1)
}

/// Force that an inertia exerts under a motion:
/// force `m v - p × ω`, torque `I ω + p × v`.
pub open spec fn inertia_mul(i: InertiaV, m: MotionV) -> ForceV {
    (v3_add(v3_mul(i.0, m.0), v3_cross(i.1, m.1)), v3_sub(v3_scale(i.2, m.1), v3_cross(i.1, m.0)))
}

pub open spec fn inertia_mul_fits(i: InertiaV, m: MotionV) -> bool {
    &&& v3_fits(v3_scale(i.2, m.1))
    &&& cross_fits(i.1, m.0)
    &&& v3_fits(v3_mul(i.0, m.0))
    &&& cross_fits(i.1, m.1)
    &&& v3_fits(inertia_mul(i, m).0)
    &&& v3_fits(inertia_mul(i, m).1)
}

/// The matrix `m diag(d) + h hᵀ - |h|² 1` of an inertia `(d, h, m)`: the angular part of
/// the inertia once the linear part is eliminated.
pub open spec fn coupling(i: InertiaV) -> Sym3 {
    let d = i.0;
    let h = i.1;
    let m = i.2;
    let hh = h.0 * h.0 + h.1 * h.1 + h.2 * h.2;
    (
        m * d.0 + h.0 * h.0 - hh,
        m * d.1 + h.1 * h.1 - hh,
        m * d.2 + h.2 * h.2 - hh,
        h.0 * h.1,
        h.0 * h.2,
        h.1 * h.2,
    )
}

/// `m τ - h × f` for a force `(τ, f)`: what the coupling matrix maps the angular part of
/// the motion to.
pub open spec fn coupled_torque(f: ForceV, i: InertiaV) -> V3 {
    v3_sub(v3_scale(i.2, f.0), v3_cross(i.1, f.1))
}

/// Acceleration under a force, by inverting the spatial inertia with its momentum
/// coupling: `ω = adj(A) (m τ - h × f) / det A` with `A` the coupling matrix, then
/// `v = (f + h × ω) / m`; each division rounded toward zero.
pub open spec fn force_div(f: ForceV, i: InertiaV) -> MotionV {
    let a = coupling(i);
    let w = v3_quot_scalar(sym_mul(adjugate(a), coupled_torque(f, i)), det(a));
    (w, v3_quot_scalar(v3_add(f.1, v3_cross(i.1, w)), i.2))
}

/// Whether every intermediate value of `force_div` fits in an `i128`, and its result in
/// an `i64`.
pub open spec fn force_div_fits(f: ForceV, i: InertiaV) -> bool {
    let d = i.0;
    let h = i.1;
    let m = i.2;
    let t = f.0;
    let g = f.1;
    let a = coupling(i);
    let c = adjugate(a);
    let b = coupled_torque(f, i);
    let r = force_div(f, i);
    let w = r.0;
    &&& dot_fits128(h, h)
    &&& fits128(m * d.0) && fits128(m * d.1) && fits128(m * d.2)
    &&& fits128(m * d.0 + h.0 * h.0) && fits128(m * d.1 + h.1 * h.1) && fits128(m * d.2 + h.2 * h.2)
    &&& fits128(a.0) && fits128(a.1) && fits128(a.2)
    &&& fits128(a.3) && fits128(a.4) && fits128(a.5)
    &&& fits128(m * t.0) && fits128(m * t.1) && fits128(m * t.2)
    &&& ms_fits128(h.1, g.2, h.2, g.1)
    &&& ms_fits128(h.2, g.0, h.0, g.2)
    &&& ms_fits128(h.0, g.1, h.1, g.0)
    &&& fits128(b.0) && fits128(b.1) && fits128(b.2)
    &&& ms_fits128(a.1, a.2, a.5, a.5)
    &&& ms_fits128(a.0, a.2, a.4, a.4)
    &&& ms_fits128(a.0, a.1, a.3, a.3)
    &&& ms_fits128(a.4, a.5, a.3, a.2)
    &&& ms_fits128(a.3, a.5, a.4, a.1)
    &&& ms_fits128(a.3, a.4, a.0, a.5)
    &&& dot_fits128((a.0, a.3, a.4), (c.0, c.3, c.4))
    &&& dot_fits128((c.0, c.3, c.4), b)
    &&& dot_fits128((c.3, c.1, c.5), b)
    &&& dot_fits128((c.4, c.5, c.2), b)
    &&& v3_fits(w)
    &&& ms_fits128(h.1, w.2, h.2, w.1)
    &&& ms_fits128(h.2, w.0, h.0, w.2)
    &&& ms_fits128(h.0, w.1, h.1, w.0)
    &&& fits128(v3_add(g, v3_cross(h, w)).0)
    &&& fits128(v3_add(g, v3_cross(h, w)).1)
    &&& fits128(v3_add(g, v3_cross(h, w)).2)
    &&& v3_fits(r.1)
}

/// Spatial cross product of two motions.
pub open spec fn motion_cross(a: MotionV, b: MotionV) -> MotionV {
    (v3_cross(a.0, b.0), v3_add(v3_cross(a.0, b.1), v3_cross(a.1, b.0)))
}

pub open spec fn motion_cross_fits(a: MotionV, b: MotionV) -> bool {
    &&& cross_fits(a.0, b.0)
    &&& cross_fits(a.0, b.1)
    &&& cross_fits(a.1, b.0)
    &&& v3_fits(motion_cross(a, b).1)
}

/// Dual cross product of a motion with a force.
pub open spec fn motion_cross_dual(m: MotionV, f: ForceV) -> ForceV {
    (v3_cross(m.0, f.1), v3_add(v3_cross(m.0, f.0), v3_cross(m.1, f.1)))
}

pub open spec fn motion_cross_dual_fits(m: MotionV, f: ForceV) -> bool {
    &&& cross_fits(m.0, f.0)
    &&& cross_fits(m.1, f.1)
    &&& cross_fits(m.0, f.1)
    &&& v3_fits(motion_cross_dual(m, f).1)
}

/// A motion expressed in the frame of a transform: both parts rotated by its
/// orientation, and the linear part shifted by the rotated angular part crossed with
/// its position.
pub open spec fn motion_offset(m: MotionV, t: TransformV) -> MotionV {
    let w = q_rotate(t.0, m.0);
    (w, v3_add(q_rotate(t.0, m.1), v3_cross(w, t.1)))
}

pub open spec fn motion_offset_fits(m: MotionV, t: TransformV) -> bool {
    &&& rotate_fits(t.0, m.0)
    &&& rotate_fits(t.0, m.1)
    &&& cross_fits(q_rotate(t.0, m.0), t.1)
    &&& v3_fits(motion_offset(m, t).1)
}

pub open spec fn pair_add(a: (V3, V3), b: (V3, V3)) -> (V3, V3) {
    (v3_add(a.0, b.0), v3_add(a.1, b.1))
}

pub open spec fn pair_fits(a: (V3, V3)) -> bool {
    v3_fits(a.0) && v3_fits(a.1)
}

/// A spatial transform: an orientation quaternion `(x, y, z, w)` followed by a position.
#[derive(Clone, Copy, Debug)]
pub struct SpatialTransform {
    pub inner: [i64; 7],
}

impl View for SpatialTransform {
    type V = TransformV;

    open spec fn view(&self) -> TransformV {
        (
            (self.inner[0] as int, self.inner[1] as int, self.inner[2] as int, self.inner[3] as int),
            v3_at7(self.inner, 4),
        )
    }
}

impl SpatialTransform {
    /// A transform from an orientation and a position.
    pub fn new(angular: Quaternion, linear: Vector3) -> (r: Self)
        ensures
            r@ == (angular@, linear@),
    {
        SpatialTransform {
            inner: [angular.x, angular.y, angular.z, angular.w, linear.x, linear.y, linear.z],
        }
    }

    /// A pure rotation.
    pub fn from_angular(angular: Quaternion) -> (r: Self)
        ensures
            r@ == (angular@, v3_zero()),
    {
        Self::new(angular, Vector3::zeros())
    }

    /// A pure translation.
    pub fn from_linear(linear: Vector3) -> (r: Self)
        ensures
            r@ == (q_identity(), linear@),
    {
        Self::new(Quaternion::identity(), linear)
    }

    /// The transform whose seven components are all zero.
    pub fn zero() -> (r: Self)
        ensures
            r@ == ((0int, 0int, 0int, 0int), v3_zero()),
    {
        SpatialTransform { inner: [0, 0, 0, 0, 0, 0, 0] }
    }

    /// The orientation.
    pub fn angular(&self) -> (r: Quaternion)
        ensures
            r@ == self@.0,
    {
        Quaternion { x: self.inner[0], y: self.inner[1], z: self.inner[2], w: self.inner[3] }
    }

    /// The position.
    pub fn linear(&self) -> (r: Vector3)
        ensures
            r@ == self@.1,
    {
        Vector3 { x: self.inner[4], y: self.inner[5], z: self.inner[6] }
    }

    /// The composition `self * rhs`: first `rhs`, then `self`.
    pub fn mul(&self, rhs: &Self) -> (r: Self)
        requires
            compose_fits(self@, rhs@),
        ensures
            r@ == compose(self@, rhs@),
    {
        let q = self.angular();
        let angular = q.mul(&rhs.angular());
        let linear = self.linear().add(&q.rotate(&rhs.linear()));
        Self::new(angular, linear)
    }

    /// Component-wise sum of two transforms.
    pub fn add(&self, rhs: &Self) -> (r: Self)
        requires
            forall|k: int| 0 <= k < 7 ==> fits(self.inner[k] + rhs.inner[k]),
        ensures
            forall|k: int| 0 <= k < 7 ==> r.inner[k] == self.inner[k] + rhs.inner[k],
    {
        let mut inner: [i64; 7] = [0, 0, 0, 0, 0, 0, 0];
        let mut k: usize = 0;
        while k < 7
            invariant
                k <= 7,
                forall|j: int| 0 <= j < k ==> inner[j] == self.inner[j] + rhs.inner[j],
                forall|j: int| 0 <= j < 7 ==> fits(self.inner[j] + rhs.inner[j]),
            decreases 7 - k,
        {
            inner[k] = self.inner[k] + rhs.inner[k];
            k = k + 1;
        }
        SpatialTransform { inner }
    }
}

/// A spatial force: a torque followed by a linear force.
#[derive(Clone, Copy, Debug)]
pub struct SpatialForce {
    pub inner: [i64; 6],
}

impl View for SpatialForce {
    type V = ForceV;

    open spec fn view(&self) -> ForceV {
        (v3_at6(self.inner, 0), v3_at6(self.inner, 3))
    }
}

impl SpatialForce {
    /// A spatial force from a torque and a force.
    pub fn new(torque: Vector3, force: Vector3) -> (r: Self)
        ensures
            r@ == (torque@, force@),
    {
        SpatialForce { inner: [torque.x, torque.y, torque.z, force.x, force.y, force.z] }
    }

    /// A pure force, without torque.
    pub fn from_linear(force: Vector3) -> (r: Self)
        ensures
            r@ == (v3_zero(), force@),
    {
        Self::new(Vector3::zeros(), force)
    }

    /// A pure torque, without force.
    pub fn from_torque(torque: Vector3) -> (r: Self)
        ensures
            r@ == (torque@, v3_zero()),
    {
        Self::new(torque, Vector3::zeros())
    }

    pub fn torque(&self) -> (r: Vector3)
        ensures
            r@ == self@.0,
    {
        Vector3 { x: self.inner[0], y: self.inner[1], z: self.inner[2] }
    }

    pub fn force(&self) -> (r: Vector3)
        ensures
            r@ == self@.1,
    {
        Vector3 { x: self.inner[3], y: self.inner[4], z: self.inner[5] }
    }

    pub fn zero() -> (r: Self)
        ensures
            r@ == (v3_zero(), v3_zero()),
    {
        SpatialForce { inner: [0, 0, 0, 0, 0, 0] }
    }

    /// The sum of two forces.
    pub fn add(&self, rhs: &Self) -> (r: Self)
        requires
            pair_fits(pair_add(self@, rhs@)),
        ensures
            r@ == pair_add(self@, rhs@),
    {
        Self::new(self.torque().add(&rhs.torque()), self.force().add(&rhs.force()))
    }

    /// The acceleration that this force gives a body of inertia `rhs`, by inverting the
    /// spatial inertia with its momentum coupling.
    pub fn div(&self, rhs: &SpatialInertia) -> (r: SpatialMotion)
        requires
            rhs.is_valid(),
            rhs.is_invertible(),
            force_div_fits(self@, rhs@),
        ensures
            r@ == force_div(self@, rhs@),
    {
        let m = rhs.inner[6] as i128;
        let d0 = rhs.inner[0] as i128;
        let d1 = rhs.inner[1] as i128;
        let d2 = rhs.inner[2] as i128;
        let h0 = rhs.inner[3] as i128;
        let h1 = rhs.inner[4] as i128;
        let h2 = rhs.inner[5] as i128;
        let t0 = self.inner[0] as i128;
        let t1 = self.inner[1] as i128;
        let t2 = self.inner[2] as i128;
        let g0 = self.inner[3] as i128;
        let g1 = self.inner[4] as i128;
        let g2 = self.inner[5] as i128;
        let hh = dot128(h0, h1, h2, h0, h1, h2);
        let a0 = m * d0 + h0 * h0 - hh;
        let a1 = m * d1 + h1 * h1 - hh;
        let a2 = m * d2 + h2 * h2 - hh;
        let a3 = h0 * h1;
        let a4 = h0 * h2;
        let a5 = h1 * h2;
        let b0 = m * t0 - mul_sub128(h1, g2, h2, g1);
        let b1 = m * t1 - mul_sub128(h2, g0, h0, g2);
        let b2 = m * t2 - mul_sub128(h0, g1, h1, g0);
        let c0 = mul_sub128(a1, a2, a5, a5);
        let c1 = mul_sub128(a0, a2, a4, a4);
        let c2 = mul_sub128(a0, a1, a3, a3);
        let c3 = mul_sub128(a4, a5, a3, a2);
        let c4 = mul_sub128(a3, a5, a4, a1);
        let c5 = mul_sub128(a3, a4, a0, a5);
        let dt = dot128(a0, a3, a4, c0, c3, c4);
        let w0 = quot128(dot128(c0, c3, c4, b0, b1, b2), dt);
        let w1 = quot128(dot128(c3, c1, c5, b0, b1, b2), dt);
        let w2 = quot128(dot128(c4, c5, c2, b0, b1, b2), dt);
        let v0 = quot128(g0 + mul_sub128(h1, w2, h2, w1), m);
        let v1 = quot128(g1 + mul_sub128(h2, w0, h0, w2), m);
        let v2 = quot128(g2 + mul_sub128(h0, w1, h1, w0), m);
        SpatialMotion { inner: [w0 as i64, w1 as i64, w2 as i64, v0 as i64, v1 as i64, v2 as i64] }
    }
}

/// Multiplying by a positive integer and then dividing by it gives the value back.
proof fn lemma_quot_mul(a: int, b: int)
    requires
        b > 0,
    ensures
        quot(b * a, b) == a,
{
    assert(abs(b * a) == b * abs(a)) by (nonlinear_arith)
        requires
            b > 0,
            abs(a) == (if a < 0 { -a } else { a }),
            abs(b * a) == (if b * a < 0 { -(b * a) } else { b * a }),
    ;
    assert((b * abs(a)) / b == abs(a)) by (nonlinear_arith)
        requires
            b > 0,
    ;
    assert((b * a >= 0) == (a >= 0)) by (nonlinear_arith)
        requires
            b > 0,
    ;
    assert((b * a == 0) == (a == 0)) by (nonlinear_arith)
        requires
            b > 0,
    ;
}

/// Dividing by a nonzero integer undoes multiplying by it.
proof fn lemma_quot_mul_nonzero(a: int, b: int)
    requires
        b != 0,
    ensures
        quot(b * a, b) == a,
{
    if b > 0 {
        lemma_quot_mul(a, b);
    } else {
        let nb = -b;
        assert(b * a == -(nb * a)) by (nonlinear_arith)
            requires
                nb == -b,
        ;
        assert(nb * abs(a) / nb == abs(a)) by (nonlinear_arith)
            requires
                nb > 0,
        ;
        assert((nb * a > 0) == (a > 0) && (nb * a == 0) == (a == 0)) by (nonlinear_arith)
            requires
                nb > 0,
        ;
        assert(abs(b * a) == nb * abs(a)) by (nonlinear_arith)
            requires
                nb > 0,
                b * a == -(nb * a),
                abs(a) == (if a < 0 { -a } else { a }),
                abs(b * a) == (if b * a < 0 { -(b * a) } else { b * a }),
        ;
    }
}

/// One row of `m τ - h × f == A ω` for the force `(τ, f)` that an inertia exerts under
/// the motion `(ω, v)`, with `(k, p, q)` a cyclic order of the axes.
proof fn lemma_coupled_row(
    m: int,
    dk: int,
    hk: int,
    hp: int,
    hq: int,
    wk: int,
    wp: int,
    wq: int,
    vp: int,
    vq: int,
    tk: int,
    fp: int,
    fq: int,
    hh: int,
)
    requires
        tk == dk * wk + (hp * vq - hq * vp),
        fq == m * vq - (hk * wp - hp * wk),
        fp == m * vp - (hq * wk - hk * wq),
        hh == hk * hk + hp * hp + hq * hq,
    ensures
        m * tk - (hp * fq - hq * fp) == (m * dk + hk * hk - hh) * wk + (hk * hp) * wp + (hk
            * hq) * wq,
{
    lemma_mul_is_distributive_add(m, dk * wk, hp * vq - hq * vp);
    lemma_mul_is_distributive_sub(m, hp * vq, hq * vp);
    lemma_mul_is_associative(m, dk, wk);
    lemma_mul_is_associative(m, hp, vq);
    lemma_mul_is_associative(m, hq, vp);
    assert(m * tk == m * dk * wk + m * hp * vq - m * hq * vp);
    lemma_mul_is_distributive_sub(hp, m * vq, hk * wp - hp * wk);
    lemma_mul_is_distributive_sub(hp, hk * wp, hp * wk);
    lemma_mul_is_associative(hp, m, vq);
    lemma_mul_is_associative(hp, hk, wp);
    lemma_mul_is_associative(hp, hp, wk);
    lemma_mul_is_commutative(hp, m);
    lemma_mul_is_commutative(hp, hk);
    assert(hp * fq == m * hp * vq - hk * hp * wp + hp * hp * wk);
    lemma_mul_is_distributive_sub(hq, m * vp, hq * wk - hk * wq);
    lemma_mul_is_distributive_sub(hq, hq * wk, hk * wq);
    lemma_mul_is_associative(hq, m, vp);
    lemma_mul_is_associative(hq, hq, wk);
    lemma_mul_is_associative(hq, hk, wq);
    lemma_mul_is_commutative(hq, m);
    lemma_mul_is_commutative(hq, hk);
    assert(hq * fp == m * hq * vp - hq * hq * wk + hk * hq * wq);
    assert((m * dk + hk * hk - hh) * wk == m * dk * wk - hp * hp * wk - hq * hq * wk)
        by (nonlinear_arith)
        requires
            hh == hk * hk + hp * hp + hq * hq,
    ;
}

/// A force computed as `inertia * motion` and divided again by the same inertia gives
/// back the motion, for a valid inertia whose coupling matrix is invertible.
pub proof fn lemma_inertia_round_trip(inertia: SpatialInertia, motion: SpatialMotion)
    requires
        inertia.is_valid(),
        inertia.is_invertible(),
    ensures
        force_div(inertia_mul(inertia@, motion@), inertia@) == motion@,
{
    let i = inertia@;
    let mo = motion@;
    let (d, h, m) = i;
    let (w, v) = mo;
    let f = inertia_mul(i, mo);
    let a = coupling(i);
    let hh = h.0 * h.0 + h.1 * h.1 + h.2 * h.2;
    lemma_coupled_row(m, d.0, h.0, h.1, h.2, w.0, w.1, w.2, v.1, v.2, f.0.0, f.1.1, f.1.2, hh);
    lemma_coupled_row(m, d.1, h.1, h.2, h.0, w.1, w.2, w.0, v.2, v.0, f.0.1, f.1.2, f.1.0, hh);
    lemma_coupled_row(m, d.2, h.2, h.0, h.1, w.2, w.0, w.1, v.0, v.1, f.0.2, f.1.0, f.1.1, hh);
    assert(h.1 * h.0 == h.0 * h.1 && h.2 * h.0 == h.0 * h.2 && h.2 * h.1 == h.1 * h.2)
        by (nonlinear_arith);
    assert(coupled_torque(f, i) == sym_mul(a, w));
    lemma_adjugate_mul(a, w);
    lemma_quot_mul_nonzero(w.0, det(a));
    lemma_quot_mul_nonzero(w.1, det(a));
    lemma_quot_mul_nonzero(w.2, det(a));
    assert(force_div(f, i).0 == w);
    assert(v3_add(f.1, v3_cross(h, w)) == v3_scale(m, v));
    lemma_quot_mul(v.0, m);
    lemma_quot_mul(v.1, m);
    lemma_quot_mul(v.2, m);
}

/// A spatial inertia in diagonalised form: the diagonal of the inertia tensor, the
/// momentum, and the mass.
#[derive(Clone, Copy, Debug)]
pub struct SpatialInertia {
    pub inner: [i64; 7],
}

impl View for SpatialInertia {
    type V = InertiaV;

    open spec fn view(&self) -> InertiaV {
        (v3_at7(self.inner, 0), v3_at7(self.inner, 3), self.inner[6] as int)
    }
}

impl SpatialInertia {
    /// Whether the mass and every diagonal entry of the inertia are positive, as a
    /// physical body requires.
    pub open spec fn is_valid(&self) -> bool {
        &&& self@.2 > 0
        &&& self@.0.0 > 0 && self@.0.1 > 0 && self@.0.2 > 0
    }

    /// Whether the coupling matrix has a nonzero determinant, so that a force can be
    /// divided by this inertia.
    pub open spec fn is_invertible(&self) -> bool {
        det(coupling(self@)) != 0
    }

    /// A spatial inertia from the diagonal inertia, the momentum and the mass; refused
    /// where the mass or an entry of the diagonal inertia is not positive.
    pub fn new(inertia: Vector3, momentum: Vector3, mass: i64) -> (r: Result<
        Self,
        ConfigurationError,
    >)
        ensures
            r matches Ok(i) ==> i@ == (inertia@, momentum@, mass as int) && i.is_valid(),
            r is Err <==> !(mass > 0 && inertia.x > 0 && inertia.y > 0 && inertia.z > 0),
            r is Err ==> r == Err::<Self, ConfigurationError>(
                ConfigurationError::NonPositiveInertia,
            ),
    {
        if mass > 0 && inertia.x > 0 && inertia.y > 0 && inertia.z > 0 {
            Ok(
                SpatialInertia {
                    inner: [
                        inertia.x,
                        inertia.y,
                        inertia.z,
                        momentum.x,
                        momentum.y,
                        momentum.z,
                        mass,
                    ],
                },
            )
        } else {
            Err(ConfigurationError::NonPositiveInertia)
        }
    }

    /// The inertia of a body with no momentum whose inertia equals its mass about every
    /// axis; refused where the mass is not positive.
    pub fn from_mass(mass: i64) -> (r: Result<Self, ConfigurationError>)
        ensures
            r matches Ok(i) ==> i@ == ((mass as int, mass as int, mass as int), v3_zero(), mass as int),
            r is Err <==> mass <= 0,
            r is Err ==> r == Err::<Self, ConfigurationError>(
                ConfigurationError::NonPositiveInertia,
            ),
    {
        Self::new(Vector3::new(mass, mass, mass), Vector3::zeros(), mass)
    }

    /// The diagonal of the inertia tensor.
    pub fn inertia_diag(&self) -> (r: Vector3)
        ensures
            r@ == self@.0,
    {
        Vector3 { x: self.inner[0], y: self.inner[1], z: self.inner[2] }
    }

    pub fn momentum(&self) -> (r: Vector3)
        ensures
            r@ == self@.1,
    {
        Vector3 { x: self.inner[3], y: self.inner[4], z: self.inner[5] }
    }

    pub fn mass(&self) -> (r: i64)
        ensures
            r == self@.2,
    {
        self.inner[6]
    }

    /// The force `self * rhs` that this inertia exerts under the motion `rhs`.
    pub fn mul(&self, rhs: &SpatialMotion) -> (r: SpatialForce)
        requires
            inertia_mul_fits(self@, rhs@),
        ensures
            r@ == inertia_mul(self@, rhs@),
    {
        let p = self.momentum();
        let force = rhs.linear().scale(self.mass()).sub(&p.cross(&rhs.angular()));
        let torque = self.inertia_diag().mul_elem(&rhs.angular()).add(&p.cross(&rhs.linear()));
        SpatialForce::new(torque, force)
    }
}

/// A spatial motion: an angular velocity followed by a linear velocity.
#[derive(Clone, Copy, Debug)]
pub struct SpatialMotion {
    pub inner: [i64; 6],
}

impl View for SpatialMotion {
    type V = MotionV;

    open spec fn view(&self) -> MotionV {
        (v3_at6(self.inner, 0), v3_at6(self.inner, 3))
    }
}

impl SpatialMotion {
    /// A spatial motion from an angular and a linear velocity.
    pub fn new(angular: Vector3, linear: Vector3) -> (r: Self)
        ensures
            r@ == (angular@, linear@),
    {
        SpatialMotion { inner: [angular.x, angular.y, angular.z, linear.x, linear.y, linear.z] }
    }

    /// A pure translation velocity.
    pub fn from_linear(linear: Vector3) -> (r: Self)
        ensures
            r@ == (v3_zero(), linear@),
    {
        Self::new(Vector3::zeros(), linear)
    }

    /// A pure rotation velocity.
    pub fn from_angular(angular: Vector3) -> (r: Self)
        ensures
            r@ == (angular@, v3_zero()),
    {
        Self::new(angular, Vector3::zeros())
    }

    pub fn angular(&self) -> (r: Vector3)
        ensures
            r@ == self@.0,
    {
        Vector3 { x: self.inner[0], y: self.inner[1], z: self.inner[2] }
    }

    pub fn linear(&self) -> (r: Vector3)
        ensures
            r@ == self@.1,
    {
        Vector3 { x: self.inner[3], y: self.inner[4], z: self.inner[5] }
    }

    /// This motion seen through the transform `pos`.
    pub fn offset(&self, pos: &SpatialTransform) -> (r: Self)
        requires
            motion_offset_fits(self@, pos@),
        ensures
            r@ == motion_offset(self@, pos@),
    {
        let q = pos.angular();
        let ang_vel = q.rotate(&self.angular());
        let vel = q.rotate(&self.linear()).add(&ang_vel.cross(&pos.linear()));
        Self::new(ang_vel, vel)
    }

    /// The spatial cross product `self × other` of two motions.
    pub fn cross(&self, other: &Self) -> (r: Self)
        requires
            motion_cross_fits(self@, other@),
        ensures
            r@ == motion_cross(self@, other@),
    {
        let ang_vel = self.angular().cross(&other.angular());
        let vel = self.angular().cross(&other.linear()).add(
            &self.linear().cross(&other.angular()),
        );
        Self::new(ang_vel, vel)
    }

    /// The dual cross product `self ×* other` of this motion with a force.
    pub fn cross_dual(&self, other: &SpatialForce) -> (r: SpatialForce)
        requires
            motion_cross_dual_fits(self@, other@),
        ensures
            r@ == motion_cross_dual(self@, other@),
    {
        let force = self.angular().cross(&other.torque()).add(
            &self.linear().cross(&other.force()),
        );
        let torque = self.angular().cross(&other.force());
        SpatialForce::new(torque, force)
    }

    pub fn zero() -> (r: Self)
        ensures
            r@ == (v3_zero(), v3_zero()),
    {
        SpatialMotion { inner: [0, 0, 0, 0, 0, 0] }
    }

    /// The sum of two motions.
    pub fn add(&self, rhs: &Self) -> (r: Self)
        requires
            pair_fits(pair_add(self@, rhs@)),
        ensures
            r@ == pair_add(self@, rhs@),
    {
        Self::new(self.angular().add(&rhs.angular()), self.linear().add(&rhs.linear()))
    }

    /// This motion scaled by `s`, as when a velocity is multiplied by a time step.
    pub fn scale(&self, s: i64) -> (r: Self)
        requires
            pair_fits((v3_scale(s as int, self@.0), v3_scale(s as int, self@.1))),
        ensures
            r@ == (v3_scale(s as int, self@.0), v3_scale(s as int, self@.1)),
    {
        Self::new(self.angular().scale(s), self.linear().scale(s))
    }
}

impl Quaternion {
    /// Both parts of a motion rotated by this quaternion.
    pub fn mul_motion(&self, rhs: &SpatialMotion) -> (r: SpatialMotion)
        requires
            rotate_fits(self@, rhs@.0),
            rotate_fits(self@, rhs@.1),
        ensures
            r@ == (q_rotate(self@, rhs@.0), q_rotate(self@, rhs@.1)),
    {
        SpatialMotion::new(self.rotate(&rhs.angular()), self.rotate(&rhs.linear()))
    }

    /// Both parts of a force rotated by this quaternion.
    pub fn mul_force(&self, rhs: &SpatialForce) -> (r: SpatialForce)
        requires
            rotate_fits(self@, rhs@.0),
            rotate_fits(self@, rhs@.1),
        ensures
            r@ == (q_rotate(self@, rhs@.0), q_rotate(self@, rhs@.1)),
    {
        SpatialForce::new(self.rotate(&rhs.torque()), self.rotate(&rhs.force()))
    }

    /// A transform whose orientation is premultiplied, and whose position is rotated, by
    /// this quaternion.
    pub fn mul_transform(&self, rhs: &SpatialTransform) -> (r: SpatialTransform)
        requires
            q_mul_fits(self@, rhs@.0),
            rotate_fits(self@, rhs@.1),
        ensures
            r@ == (q_mul(self@, rhs@.0), q_rotate(self@, rhs@.1)),
    {
        SpatialTransform::new(self.mul(&rhs.angular()), self.rotate(&rhs.linear()))
    }
}

} // verus!
