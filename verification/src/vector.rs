//! Fixed-point vectors in the body frame of a ship, and the products that
//! the thruster tests are made of.
//!
//! A vector holds three integers in some fixed scale. Every decision taken
//! from vectors reads only whether a vector is zero and the sign of a
//! product, so any scale will do as long as all components of one vector
//! share it.

use vstd::prelude::*;
use vstd::arithmetic::mul::{lemma_mul_is_associative, lemma_mul_is_commutative};

verus! {

/// Dot product of two vectors given by their components.
pub open spec fn dot(a: (int, int, int), b: (int, int, int)) -> int {
    a.0 * b.0 + a.1 * b.1 + a.2 * b.2
}

/// Cross product of two vectors given by their components.
pub open spec fn cross(a: (int, int, int), b: (int, int, int)) -> (int, int, int) {
    (a.1 * b.2 - a.2 * b.1, a.2 * b.0 - a.0 * b.2, a.0 * b.1 - a.1 * b.0)
}

/// The vector `a` stretched by the factor `k`.
pub open spec fn scale(a: (int, int, int), k: int) -> (int, int, int) {
    (a.0 * k, a.1 * k, a.2 * k)
}

/// A vector in the body frame of a ship, whose forward direction is -z.
#[derive(Clone, Copy, Debug, PartialEq, Eq, Structural)]
pub struct BodyVector {
    pub x: i32,
    pub y: i32,
    pub z: i32,
}

impl View for BodyVector {
    type V = (int, int, int);

    open spec fn view(&self) -> (int, int, int) {
        (self.x as int, self.y as int, self.z as int)
    }
}

impl BodyVector {
    /// All three components are zero.
    pub open spec fn spec_is_zero(&self) -> bool {
        self.x == 0 && self.y == 0 && self.z == 0
    }

    /// Every component is -1, 0 or 1.
    pub open spec fn is_unit_box(self) -> bool {
        &&& -1 <= self.x <= 1
        &&& -1 <= self.y <= 1
        &&& -1 <= self.z <= 1
    }

    /// The zero vector.
    pub fn zero() -> (r: BodyVector)
        ensures
            r.is_zero(),
    {
        BodyVector { x: 0, y: 0, z: 0 }
    }

    /// Whether all three components are zero.
    #[verifier::when_used_as_spec(spec_is_zero)]
    pub fn is_zero(&self) -> (r: bool)
        ensures
            r == self.spec_is_zero(),
    {
        self.x == 0 && self.y == 0 && self.z == 0
    }

    /// The dot product with `other`, which always fits the result type.
    pub fn dot(&self, other: &BodyVector) -> (r: i128)
        ensures
            r == dot(self@, other@),
    {
        let along_x: i128 = product(self.x, other.x);
        let along_y: i128 = product(self.y, other.y);
        let along_z: i128 = product(self.z, other.z);
        along_x + along_y + along_z
    }
}

/// Product of two components, with the bound that keeps sums of such
/// products clear of overflow.
pub(crate) fn product(a: i32, b: i32) -> (r: i128)
    ensures
        r == a * b,
        -0x4000_0000_0000_0000 <= r <= 0x4000_0000_0000_0000,
{
    assert(-0x4000_0000_0000_0000 <= a * b <= 0x4000_0000_0000_0000) by (nonlinear_arith)
        requires
            -0x8000_0000 <= a <= 0x7fff_ffff,
            -0x8000_0000 <= b <= 0x7fff_ffff,
    ;
    let wide_a: i128 = a as i128;
    let wide_b: i128 = b as i128;
    wide_a * wide_b
}

/// Two vectors point exactly against each other when some positive multiple
/// of the one is the negative of some positive multiple of the other.
pub open spec fn opposite(a: (int, int, int), b: (int, int, int)) -> bool {
    exists|k: int, j: int|
        k > 0 && j > 0 && #[trigger] scale(a, k) == scale(#[trigger] scale(b, j), -1)
}

/// A non-zero vector has a positive squared length.
pub proof fn lemma_dot_self_positive(v: (int, int, int))
    requires
        v != (0int, 0int, 0int),
    ensures
        dot(v, v) > 0,
{
    assert(v.0 * v.0 >= 0) by (nonlinear_arith);
    assert(v.1 * v.1 >= 0) by (nonlinear_arith);
    assert(v.2 * v.2 >= 0) by (nonlinear_arith);
    assert(v.0 != 0 ==> v.0 * v.0 > 0) by (nonlinear_arith);
    assert(v.1 != 0 ==> v.1 * v.1 > 0) by (nonlinear_arith);
    assert(v.2 != 0 ==> v.2 * v.2 > 0) by (nonlinear_arith);
}

/// The dot product does not depend on the order of its factors.
pub proof fn lemma_dot_commutes(a: (int, int, int), b: (int, int, int))
    ensures
        dot(a, b) == dot(b, a),
{
    assert(a.0 * b.0 == b.0 * a.0) by (nonlinear_arith);
    assert(a.1 * b.1 == b.1 * a.1) by (nonlinear_arith);
    assert(a.2 * b.2 == b.2 * a.2) by (nonlinear_arith);
}

/// A factor by which a vector is stretched comes out of its dot products.
pub proof fn lemma_dot_of_stretched(a: (int, int, int), b: (int, int, int), k: int)
    ensures
        dot(a, scale(b, k)) == k * dot(a, b),
{
    let x: int = a.0 * b.0;
    let y: int = a.1 * b.1;
    let z: int = a.2 * b.2;
    assert(a.0 * (b.0 * k) == k * x) by (nonlinear_arith)
        requires
            x == a.0 * b.0,
    ;
    assert(a.1 * (b.1 * k) == k * y) by (nonlinear_arith)
        requires
            y == a.1 * b.1,
    ;
    assert(a.2 * (b.2 * k) == k * z) by (nonlinear_arith)
        requires
            z == a.2 * b.2,
    ;
    assert(k * x + k * y + k * z == k * (x + y + z)) by (nonlinear_arith);
}

/// Stretching a vector by a positive factor keeps it zero or non-zero and
/// keeps the sign of its dot product with any other vector.
pub proof fn lemma_stretched_keeps_sign(a: (int, int, int), b: (int, int, int), k: int)
    requires
        k > 0,
    ensures
        scale(b, k) == (0int, 0int, 0int) <==> b == (0int, 0int, 0int),
        dot(a, scale(b, k)) < 0 <==> dot(a, b) < 0,
        dot(a, scale(b, k)) > 0 <==> dot(a, b) > 0,
{
    assert(b.0 * k == 0 <==> b.0 == 0) by (nonlinear_arith)
        requires
            k > 0,
    ;
    assert(b.1 * k == 0 <==> b.1 == 0) by (nonlinear_arith)
        requires
            k > 0,
    ;
    assert(b.2 * k == 0 <==> b.2 == 0) by (nonlinear_arith)
        requires
            k > 0,
    ;
    lemma_dot_of_stretched(a, b, k);
    let total: int = dot(a, b);
    assert((k * total < 0 <==> total < 0) && (k * total > 0 <==> total > 0)) by (nonlinear_arith)
        requires
            k > 0,
    ;
}

/// Factors by which two vectors are stretched come out of their cross
/// product.
pub proof fn lemma_cross_of_stretched(a: (int, int, int), b: (int, int, int), k: int, j: int)
    ensures
        cross(scale(a, k), scale(b, j)) == scale(cross(a, b), k * j),
{
    lemma_cross_component(a.1, a.2, b.1, b.2, k, j);
    lemma_cross_component(a.2, a.0, b.2, b.0, k, j);
    lemma_cross_component(a.0, a.1, b.0, b.1, k, j);
}

/// One component of the cross product of two stretched vectors.
proof fn lemma_cross_component(a_u: int, a_v: int, b_u: int, b_v: int, k: int, j: int)
    ensures
        (a_u * k) * (b_v * j) - (a_v * k) * (b_u * j) == (a_u * b_v - a_v * b_u) * (k * j),
{
    lemma_product_of_stretched(a_u, b_v, k, j);
    lemma_product_of_stretched(a_v, b_u, k, j);
    let p: int = a_u * b_v;
    let q: int = a_v * b_u;
    let c: int = k * j;
    assert(p * c - q * c == (p - q) * c) by (nonlinear_arith);
}

/// The factors of a product of two stretched numbers can be regrouped.
proof fn lemma_product_of_stretched(a: int, b: int, k: int, j: int)
    ensures
        (a * k) * (b * j) == (a * b) * (k * j),
{
    lemma_mul_is_associative(a, k, b * j);
    lemma_mul_is_associative(k, b, j);
    lemma_mul_is_commutative(k, b);
    lemma_mul_is_associative(b, k, j);
    lemma_mul_is_associative(a, b, k * j);
}

/// Vectors that point exactly against each other have dot products of
/// opposite sign with any third vector.
pub proof fn lemma_opposite_flips_sign(a: (int, int, int), b: (int, int, int), c: (int, int, int))
    requires
        opposite(a, b),
    ensures
        dot(c, a) > 0 <==> dot(c, b) < 0,
        dot(c, a) < 0 <==> dot(c, b) > 0,
{
    let (k, j) = choose|k: int, j: int|
        k > 0 && j > 0 && #[trigger] scale(a, k) == scale(#[trigger] scale(b, j), -1);
    lemma_stretched_keeps_sign(c, a, k);
    lemma_stretched_keeps_sign(c, b, j);
    lemma_dot_of_stretched(c, scale(b, j), -1);
}

} // verus!
