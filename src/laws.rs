//! Algebraic laws of the vector operations over `i64` scalars, whose
//! arithmetic is exact wherever it does not overflow.

use crate::vector::{add_total, mul_total, sub_total, Vec3};
use vstd::prelude::*;
use vstd::std_specs::ops::{AddSpec, MulSpec, NegSpec, SubSpec};

verus! {

/// The zero vector over `i64`.
pub open spec fn zero_i64() -> Vec3<i64> {
    Vec3 { x: 0, y: 0, z: 0 }
}

/// `i64` arithmetic can overflow, so none of `+`, `-`, `*` is total on it.
proof fn lemma_i64_partial()
    ensures
        !add_total::<i64>(),
        !sub_total::<i64>(),
        !mul_total::<i64>(),
{
    assert(!i64::MAX.add_req(i64::MAX));
    assert(!i64::MIN.sub_req(i64::MAX));
    assert(!i64::MAX.mul_req(i64::MAX));
}

/// Adding the zero vector, scaling by one, and subtracting a vector from
/// itself are always defined: the first two give the vector back, the third
/// gives the zero vector.
pub proof fn lemma_identities(v: Vec3<i64>)
    ensures
        v.add_req(zero_i64()),
        v.add_spec(zero_i64()) == v,
        v.sub_req(v),
        v.sub_spec(v) == zero_i64(),
        v.mul_req(1i64),
        v.mul_spec(1i64) == v,
{
}

/// Negating a vector twice gives it back, wherever the first negation is
/// defined.
pub proof fn lemma_double_negation(v: Vec3<i64>)
    requires
        v.neg_req(),
    ensures
        v.neg_spec().neg_req(),
        v.neg_spec().neg_spec() == v,
{
}

/// Vector addition is commutative.
pub proof fn lemma_add_commutative(a: Vec3<i64>, b: Vec3<i64>)
    requires
        a.add_req(b),
    ensures
        b.add_req(a),
        a.add_spec(b) == b.add_spec(a),
{
}

/// The cross product is anticommutative: `cross(a, b) == -cross(b, a)`.
pub proof fn lemma_cross_anticommutative(a: Vec3<i64>, b: Vec3<i64>)
    requires
        a.cross_req(b),
        b.cross_req(a),
    ensures
        b.cross_spec(a).neg_req(),
        a.cross_spec(b) == b.cross_spec(a).neg_spec(),
{
    lemma_i64_partial();
    assert(a.y * b.z == b.z * a.y) by (nonlinear_arith);
    assert(a.z * b.y == b.y * a.z) by (nonlinear_arith);
    assert(a.z * b.x == b.x * a.z) by (nonlinear_arith);
    assert(a.x * b.z == b.z * a.x) by (nonlinear_arith);
    assert(a.x * b.y == b.y * a.x) by (nonlinear_arith);
    assert(a.y * b.x == b.x * a.y) by (nonlinear_arith);
}

/// The dot product distributes over addition in its first argument:
/// `dot(a + b, c) == dot(a, c) + dot(b, c)`.
pub proof fn lemma_dot_additive(a: Vec3<i64>, b: Vec3<i64>, c: Vec3<i64>)
    requires
        a.add_req(b),
        a.add_spec(b).dot_req(c),
        a.dot_req(c),
        b.dot_req(c),
        a.dot_spec(c).add_req(b.dot_spec(c)),
    ensures
        a.add_spec(b).dot_spec(c) == a.dot_spec(c).add_spec(b.dot_spec(c)),
{
    lemma_i64_partial();
    assert((a.x + b.x) * c.x == a.x * c.x + b.x * c.x) by (nonlinear_arith);
    assert((a.y + b.y) * c.y == a.y * c.y + b.y * c.y) by (nonlinear_arith);
    assert((a.z + b.z) * c.z == a.z * c.z + b.z * c.z) by (nonlinear_arith);
}

/// The dot product of a vector with itself (its squared length) is never
/// negative, and it is zero for the zero vector.
pub proof fn lemma_dot_self_nonnegative(v: Vec3<i64>)
    requires
        v.dot_req(v),
    ensures
        v.dot_spec(v) >= 0,
        zero_i64().dot_req(zero_i64()),
        zero_i64().dot_spec(zero_i64()) == 0,
{
    lemma_i64_partial();
    assert(v.x * v.x >= 0) by (nonlinear_arith);
    assert(v.y * v.y >= 0) by (nonlinear_arith);
    assert(v.z * v.z >= 0) by (nonlinear_arith);
}

/// Reflecting a vector that lies in the surface plane (orthogonal to the
/// normal) gives the same vector.
pub proof fn lemma_reflect_in_plane(v: Vec3<i64>, normal: Vec3<i64>)
    requires
        v.reflect_req(normal),
        v.dot_spec(normal) == 0,
    ensures
        v.reflect_spec(normal) == v,
{
    lemma_i64_partial();
}

/// The cross product is orthogonal to both of its arguments.
pub proof fn lemma_cross_orthogonal(a: Vec3<i64>, b: Vec3<i64>)
    requires
        a.cross_req(b),
        a.cross_spec(b).dot_req(a),
        a.cross_spec(b).dot_req(b),
    ensures
        a.cross_spec(b).dot_spec(a) == 0,
        a.cross_spec(b).dot_spec(b) == 0,
{
    lemma_i64_partial();
    let (ax, ay, az, bx, by, bz) = (a.x as int, a.y as int, a.z as int, b.x as int, b.y as int, b.z as int);
    assert((ay * bz - az * by) * ax + (az * bx - ax * bz) * ay + (ax * by - ay * bx) * az == 0)
        by (nonlinear_arith);
    assert((ay * bz - az * by) * bx + (az * bx - ax * bz) * by + (ax * by - ay * bx) * bz == 0)
        by (nonlinear_arith);
}

} // verus!
