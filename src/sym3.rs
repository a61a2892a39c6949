//! Symmetric 3×3 matrices over `int`: product with a vector, adjugate and determinant,
//! and the values that exact integer solving computes in `i128`.
use vstd::prelude::*;
use crate::vector::{V3, quot};
use vstd::arithmetic::mul::{lemma_mul_is_associative, lemma_mul_is_distributive_add};

verus! {

/// A symmetric matrix by its entries `(a00, a11, a22, a01, a02, a12)`.
pub type Sym3 = (int, int, int, int, int, int);

pub open spec fn sym_mul(a: Sym3, x: V3) -> V3 {
    (
        a.0 * x.0 + a.3 * x.1 + a.4 * x.2,
        a.3 * x.0 + a.1 * x.1 + a.5 * x.2,
        a.4 * x.0 + a.5 * x.1 + a.2 * x.2,
    )
}

/// The adjugate, which is symmetric too.
pub open spec fn adjugate(a: Sym3) -> Sym3 {
    (
        a.1 * a.2 - a.5 * a.5,
        a.0 * a.2 - a.4 * a.4,
        a.0 * a.1 - a.3 * a.3,
        a.4 * a.5 - a.3 * a.2,
        a.3 * a.5 - a.4 * a.1,
        a.3 * a.4 - a.0 * a.5,
    )
}

pub open spec fn det(a: Sym3) -> int {
    let c = adjugate(a);
    a.0 * c.0 + a.3 * c.3 + a.4 * c.4
}

proof fn lemma_distribute(u: int, p0: int, p1: int, p2: int, x0: int, x1: int, x2: int)
    ensures
        u * (p0 * x0 + p1 * x1 + p2 * x2) == (u * p0) * x0 + (u * p1) * x1 + (u * p2) * x2,
{
    lemma_mul_is_distributive_add(u, p0 * x0 + p1 * x1, p2 * x2);
    lemma_mul_is_distributive_add(u, p0 * x0, p1 * x1);
    lemma_mul_is_associative(u, p0, x0);
    lemma_mul_is_associative(u, p1, x1);
    lemma_mul_is_associative(u, p2, x2);
}

proof fn lemma_factor(a: int, b: int, c: int, x: int)
    ensures
        a * x + b * x + c * x == (a + b + c) * x,
{
    lemma_mul_is_distributive_add(x, a + b, c);
    lemma_mul_is_distributive_add(x, a, b);
    assert(a * x == x * a && b * x == x * b && c * x == x * c && (a + b + c) * x == x * (a + b
        + c)) by (nonlinear_arith);
}

/// The three components of `u0 r0 + u1 r1 + u2 r2`, where `rk` is row `k` of `a` times `x`,
/// grouped by the components of `x`.
proof fn lemma_combine(a: Sym3, u0: int, u1: int, u2: int, x: V3)
    ensures
        u0 * sym_mul(a, x).0 + u1 * sym_mul(a, x).1 + u2 * sym_mul(a, x).2 == (u0 * a.0 + u1
            * a.3 + u2 * a.4) * x.0 + (u0 * a.3 + u1 * a.1 + u2 * a.5) * x.1 + (u0 * a.4 + u1
            * a.5 + u2 * a.2) * x.2,
{
    lemma_distribute(u0, a.0, a.3, a.4, x.0, x.1, x.2);
    lemma_distribute(u1, a.3, a.1, a.5, x.0, x.1, x.2);
    lemma_distribute(u2, a.4, a.5, a.2, x.0, x.1, x.2);
    lemma_factor(u0 * a.0, u1 * a.3, u2 * a.4, x.0);
    lemma_factor(u0 * a.3, u1 * a.1, u2 * a.5, x.1);
    lemma_factor(u0 * a.4, u1 * a.5, u2 * a.2, x.2);
}

/// The adjugate times the matrix is the determinant times the identity.
pub proof fn lemma_adjugate_mul(a: Sym3, x: V3)
    ensures
        sym_mul(adjugate(a), sym_mul(a, x)) == (det(a) * x.0, det(a) * x.1, det(a) * x.2),
{
    let (a0, a1, a2, a3, a4, a5) = a;
    let c = adjugate(a);
    let d = det(a);
    lemma_combine(a, c.0, c.3, c.4, x);
    lemma_combine(a, c.3, c.1, c.5, x);
    lemma_combine(a, c.4, c.5, c.2, x);
    assert(c.0 * a0 + c.3 * a3 + c.4 * a4 == d);
    assert(c.0 * a3 + c.3 * a1 + c.4 * a5 == 0) by (nonlinear_arith)
        requires
            c.0 == a1 * a2 - a5 * a5,
            c.3 == a4 * a5 - a3 * a2,
            c.4 == a3 * a5 - a4 * a1,
    ;
    assert(c.0 * a4 + c.3 * a5 + c.4 * a2 == 0) by (nonlinear_arith)
        requires
            c.0 == a1 * a2 - a5 * a5,
            c.3 == a4 * a5 - a3 * a2,
            c.4 == a3 * a5 - a4 * a1,
    ;
    assert(c.3 * a0 + c.1 * a3 + c.5 * a4 == 0) by (nonlinear_arith)
        requires
            c.3 == a4 * a5 - a3 * a2,
            c.1 == a0 * a2 - a4 * a4,
            c.5 == a3 * a4 - a0 * a5,
    ;
    assert(c.1 * a1 == a0 * a1 * a2 - a1 * a4 * a4) by (nonlinear_arith)
        requires
            c.1 == a0 * a2 - a4 * a4,
    ;
    assert(c.5 * a5 == a3 * a4 * a5 - a0 * a5 * a5) by (nonlinear_arith)
        requires
            c.5 == a3 * a4 - a0 * a5,
    ;
    assert(a0 * c.0 == a0 * a1 * a2 - a0 * a5 * a5) by (nonlinear_arith)
        requires
            c.0 == a1 * a2 - a5 * a5,
    ;
    assert(a4 * c.4 == a3 * a4 * a5 - a1 * a4 * a4) by (nonlinear_arith)
        requires
            c.4 == a3 * a5 - a4 * a1,
    ;
    assert(c.3 * a4 + c.1 * a5 + c.5 * a2 == 0) by (nonlinear_arith)
        requires
            c.3 == a4 * a5 - a3 * a2,
            c.1 == a0 * a2 - a4 * a4,
            c.5 == a3 * a4 - a0 * a5,
    ;
    assert(c.4 * a0 + c.5 * a3 + c.2 * a4 == 0) by (nonlinear_arith)
        requires
            c.4 == a3 * a5 - a4 * a1,
            c.5 == a3 * a4 - a0 * a5,
            c.2 == a0 * a1 - a3 * a3,
    ;
    assert(c.4 * a3 + c.5 * a1 + c.2 * a5 == 0) by (nonlinear_arith)
        requires
            c.4 == a3 * a5 - a4 * a1,
            c.5 == a3 * a4 - a0 * a5,
            c.2 == a0 * a1 - a3 * a3,
    ;
    assert(c.2 * a2 == a0 * a1 * a2 - a2 * a3 * a3) by (nonlinear_arith)
        requires
            c.2 == a0 * a1 - a3 * a3,
    ;
    assert(a3 * c.3 == a3 * a4 * a5 - a2 * a3 * a3) by (nonlinear_arith)
        requires
            c.3 == a4 * a5 - a3 * a2,
    ;
    assert(0 * x.1 == 0 && 0 * x.2 == 0 && 0 * x.0 == 0);
}

/// Whether an integer fits in an `i128` together with its negation.
pub open spec fn fits128(x: int) -> bool {
    -i128::MAX <= x <= i128::MAX
}

/// Whether `x y - z w` and its two products fit in an `i128`.
pub open spec fn ms_fits128(x: int, y: int, z: int, w: int) -> bool {
    fits128(x * y) && fits128(z * w) && fits128(x * y - z * w)
}

/// Whether the products and partial sums of the dot product of `a` and `b` fit in an
/// `i128`.
pub open spec fn dot_fits128(a: V3, b: V3) -> bool {
    &&& fits128(a.0 * b.0) && fits128(a.1 * b.1) && fits128(a.2 * b.2)
    &&& fits128(a.0 * b.0 + a.1 * b.1)
    &&& fits128(a.0 * b.0 + a.1 * b.1 + a.2 * b.2)
}

pub fn mul_sub128(x: i128, y: i128, z: i128, w: i128) -> (r: i128)
    requires
        ms_fits128(x as int, y as int, z as int, w as int),
    ensures
        r == x * y - z * w,
{
    x * y - z * w
}

pub fn dot128(a0: i128, a1: i128, a2: i128, b0: i128, b1: i128, b2: i128) -> (r: i128)
    requires
        dot_fits128((a0 as int, a1 as int, a2 as int), (b0 as int, b1 as int, b2 as int)),
    ensures
        r == a0 * b0 + a1 * b1 + a2 * b2,
{
    a0 * b0 + a1 * b1 + a2 * b2
}

/// Quotient rounded toward zero.
pub fn quot128(a: i128, b: i128) -> (r: i128)
    requires
        b != 0,
        fits128(a as int),
        fits128(b as int),
    ensures
        r == quot(a as int, b as int),
{
    let na: i128 = if a < 0 { -a } else { a };
    let nb: i128 = if b < 0 { -b } else { b };
    let q: i128 = na / nb;
    if (a >= 0) == (b > 0) || a == 0 {
        q
    } else {
        -q
    }
}

} // verus!
