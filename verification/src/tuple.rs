//! Four-component tuples over exact scalars.
//!
//! A tuple's fourth component `w` discriminates points (`w` is one) from free
//! vectors (`w` is zero); the constructors `point` and `vector` establish
//! that convention, and nothing else enforces it. Every operation works
//! component by component on all four components, except the cross product,
//! which reads `x`, `y`, `z` only and always returns a vector.

use vstd::prelude::*;

use crate::rat::{
    lemma_mul_comm, lemma_mul_pos, lemma_rat_add_congruence, lemma_rat_div_is_mul_recip,
    lemma_rat_eq_trans, lemma_rat_mul_comm, lemma_rat_mul_distributes_add,
    lemma_rat_mul_square_swap, lemma_rat_sub_add, lemma_rat_sub_swap, rat, rat_add, rat_div,
    rat_eq, rat_fits, rat_is_one, rat_is_zero, rat_mul, rat_neg, rat_recip, rat_sub, rat_wf, Rat,
};
use crate::scalar::Scalar;

verus! {

/// The model of a tuple: four unbounded rationals.
pub ghost struct TupleView {
    pub x: Rat,
    pub y: Rat,
    pub z: Rat,
    pub w: Rat,
}

pub open spec fn tv(x: Rat, y: Rat, z: Rat, w: Rat) -> TupleView {
    TupleView { x, y, z, w }
}

pub open spec fn tv_wf(t: TupleView) -> bool {
    rat_wf(t.x) && rat_wf(t.y) && rat_wf(t.z) && rat_wf(t.w)
}

/// Component-wise value equality.
pub open spec fn tv_eq(a: TupleView, b: TupleView) -> bool {
    rat_eq(a.x, b.x) && rat_eq(a.y, b.y) && rat_eq(a.z, b.z) && rat_eq(a.w, b.w)
}

pub open spec fn tv_point(x: Rat, y: Rat, z: Rat) -> TupleView {
    tv(x, y, z, rat(1, 1))
}

pub open spec fn tv_vector(x: Rat, y: Rat, z: Rat) -> TupleView {
    tv(x, y, z, rat(0, 1))
}

pub open spec fn tv_is_point(t: TupleView) -> bool {
    rat_is_one(t.w)
}

pub open spec fn tv_is_vector(t: TupleView) -> bool {
    rat_is_zero(t.w)
}

pub open spec fn tv_add(a: TupleView, b: TupleView) -> TupleView {
    tv(rat_add(a.x, b.x), rat_add(a.y, b.y), rat_add(a.z, b.z), rat_add(a.w, b.w))
}

pub open spec fn tv_sub(a: TupleView, b: TupleView) -> TupleView {
    tv(rat_sub(a.x, b.x), rat_sub(a.y, b.y), rat_sub(a.z, b.z), rat_sub(a.w, b.w))
}

pub open spec fn tv_neg(a: TupleView) -> TupleView {
    tv(rat_neg(a.x), rat_neg(a.y), rat_neg(a.z), rat_neg(a.w))
}

pub open spec fn tv_scale(a: TupleView, s: Rat) -> TupleView {
    tv(rat_mul(a.x, s), rat_mul(a.y, s), rat_mul(a.z, s), rat_mul(a.w, s))
}

pub open spec fn tv_div(a: TupleView, s: Rat) -> TupleView {
    tv(rat_div(a.x, s), rat_div(a.y, s), rat_div(a.z, s), rat_div(a.w, s))
}

/// The dot product runs over all four components.
pub open spec fn tv_dot(a: TupleView, b: TupleView) -> Rat {
    rat_add(
        rat_add(rat_add(rat_mul(a.x, b.x), rat_mul(a.y, b.y)), rat_mul(a.z, b.z)),
        rat_mul(a.w, b.w),
    )
}

/// The cross product reads x, y, z only and yields a vector.
pub open spec fn tv_cross(a: TupleView, b: TupleView) -> TupleView {
    tv(
        rat_sub(rat_mul(a.y, b.z), rat_mul(a.z, b.y)),
        rat_sub(rat_mul(a.z, b.x), rat_mul(a.x, b.z)),
        rat_sub(rat_mul(a.x, b.y), rat_mul(a.y, b.x)),
        rat(0, 1),
    )
}

pub open spec fn tv_add_fits(a: TupleView, b: TupleView) -> bool {
    rat_fits(rat_add(a.x, b.x)) && rat_fits(rat_add(a.y, b.y)) && rat_fits(rat_add(a.z, b.z))
        && rat_fits(rat_add(a.w, b.w))
}

pub open spec fn tv_sub_fits(a: TupleView, b: TupleView) -> bool {
    rat_fits(rat_sub(a.x, b.x)) && rat_fits(rat_sub(a.y, b.y)) && rat_fits(rat_sub(a.z, b.z))
        && rat_fits(rat_sub(a.w, b.w))
}

pub open spec fn tv_neg_fits(a: TupleView) -> bool {
    rat_fits(rat_neg(a.x)) && rat_fits(rat_neg(a.y)) && rat_fits(rat_neg(a.z)) && rat_fits(
        rat_neg(a.w),
    )
}

pub open spec fn tv_scale_fits(a: TupleView, s: Rat) -> bool {
    rat_fits(rat_mul(a.x, s)) && rat_fits(rat_mul(a.y, s)) && rat_fits(rat_mul(a.z, s))
        && rat_fits(rat_mul(a.w, s))
}

pub open spec fn tv_div_fits(a: TupleView, s: Rat) -> bool {
    rat_fits(rat_div(a.x, s)) && rat_fits(rat_div(a.y, s)) && rat_fits(rat_div(a.z, s))
        && rat_fits(rat_div(a.w, s))
}

pub open spec fn tv_dot_fits(a: TupleView, b: TupleView) -> bool {
    rat_fits(rat_mul(a.x, b.x)) && rat_fits(rat_mul(a.y, b.y)) && rat_fits(rat_mul(a.z, b.z))
        && rat_fits(rat_mul(a.w, b.w)) && rat_fits(
        rat_add(rat_mul(a.x, b.x), rat_mul(a.y, b.y)),
    ) && rat_fits(rat_add(rat_add(rat_mul(a.x, b.x), rat_mul(a.y, b.y)), rat_mul(a.z, b.z)))
        && rat_fits(tv_dot(a, b))
}

pub open spec fn tv_cross_fits(a: TupleView, b: TupleView) -> bool {
    rat_fits(rat_mul(a.y, b.z)) && rat_fits(rat_mul(a.z, b.y)) && rat_fits(tv_cross(a, b).x)
        && rat_fits(rat_mul(a.z, b.x)) && rat_fits(rat_mul(a.x, b.z)) && rat_fits(
        tv_cross(a, b).y,
    ) && rat_fits(rat_mul(a.x, b.y)) && rat_fits(rat_mul(a.y, b.x)) && rat_fits(tv_cross(a, b).z)
}

/// A point or a free vector: four exact components, the last of which is the
/// discriminant.
#[derive(Clone, Copy, Debug)]
pub struct Tuple {
    pub x: Scalar,
    pub y: Scalar,
    pub z: Scalar,
    pub w: Scalar,
}

impl View for Tuple {
    type V = TupleView;

    open spec fn view(&self) -> TupleView {
        tv(self.x@, self.y@, self.z@, self.w@)
    }
}

impl PartialEq for Tuple {
    /// Tuples are equal when all four components have equal values.
    fn eq(&self, other: &Tuple) -> (r: bool) {
        self.x == other.x && self.y == other.y && self.z == other.z && self.w == other.w
    }
}

impl vstd::std_specs::cmp::PartialEqSpecImpl for Tuple {
    open spec fn obeys_eq_spec() -> bool {
        true
    }

    open spec fn eq_spec(&self, other: &Tuple) -> bool {
        tv_eq(self@, other@)
    }
}

/// Constructs a point: a tuple whose discriminant is one.
pub fn point(x: Scalar, y: Scalar, z: Scalar) -> (r: Tuple)
    requires
        x.wf(),
        y.wf(),
        z.wf(),
    ensures
        tv_wf(r@),
        r@ == tv_point(x@, y@, z@),
{
    Tuple { x, y, z, w: Scalar::from_int(1) }
}

/// Constructs a free vector: a tuple whose discriminant is zero.
pub fn vector(x: Scalar, y: Scalar, z: Scalar) -> (r: Tuple)
    requires
        x.wf(),
        y.wf(),
        z.wf(),
    ensures
        tv_wf(r@),
        r@ == tv_vector(x@, y@, z@),
{
    Tuple { x, y, z, w: Scalar::from_int(0) }
}

/// The cross product of the spatial components of two tuples, as a vector.
pub fn cross_product(a: &Tuple, b: &Tuple) -> (r: Tuple)
    requires
        tv_wf(a@),
        tv_wf(b@),
        tv_cross_fits(a@, b@),
    ensures
        tv_wf(r@),
        r@ == tv_cross(a@, b@),
{
    let x: Scalar = a.y.mul(b.z).sub(a.z.mul(b.y));
    let y: Scalar = a.z.mul(b.x).sub(a.x.mul(b.z));
    let z: Scalar = a.x.mul(b.y).sub(a.y.mul(b.x));
    Tuple { x, y, z, w: Scalar::from_int(0) }
}

impl Tuple {
    /// True exactly when the discriminant's value is one.
    pub fn is_point(&self) -> (r: bool)
        ensures
            r == tv_is_point(self@),
    {
        self.w.num == self.w.den
    }

    /// True exactly when the discriminant's value is zero.
    pub fn is_vector(&self) -> (r: bool)
        ensures
            r == tv_is_vector(self@),
    {
        self.w.num == 0
    }

    /// Component-wise sum over all four components; the discriminants add
    /// too, so the caller owes meaningful operands.
    pub fn add(self, other: Tuple) -> (r: Tuple)
        requires
            tv_wf(self@),
            tv_wf(other@),
            tv_add_fits(self@, other@),
        ensures
            tv_wf(r@),
            r@ == tv_add(self@, other@),
    {
        Tuple {
            x: self.x.add(other.x),
            y: self.y.add(other.y),
            z: self.z.add(other.z),
            w: self.w.add(other.w),
        }
    }

    /// Component-wise difference over all four components.
    pub fn sub(self, other: Tuple) -> (r: Tuple)
        requires
            tv_wf(self@),
            tv_wf(other@),
            tv_sub_fits(self@, other@),
        ensures
            tv_wf(r@),
            r@ == tv_sub(self@, other@),
    {
        Tuple {
            x: self.x.sub(other.x),
            y: self.y.sub(other.y),
            z: self.z.sub(other.z),
            w: self.w.sub(other.w),
        }
    }

    /// Component-wise negation, the discriminant included.
    pub fn neg(self) -> (r: Tuple)
        requires
            tv_wf(self@),
            tv_neg_fits(self@),
        ensures
            tv_wf(r@),
            r@ == tv_neg(self@),
    {
        Tuple { x: self.x.neg(), y: self.y.neg(), z: self.z.neg(), w: self.w.neg() }
    }

    /// Scales every component by a scalar.
    pub fn mul(self, s: Scalar) -> (r: Tuple)
        requires
            tv_wf(self@),
            s.wf(),
            tv_scale_fits(self@, s@),
        ensures
            tv_wf(r@),
            r@ == tv_scale(self@, s@),
    {
        Tuple { x: self.x.mul(s), y: self.y.mul(s), z: self.z.mul(s), w: self.w.mul(s) }
    }

    /// Divides every component by a scalar of nonzero value.
    pub fn div(self, s: Scalar) -> (r: Tuple)
        requires
            tv_wf(self@),
            s.wf(),
            s@.num != 0,
            tv_div_fits(self@, s@),
        ensures
            tv_wf(r@),
            r@ == tv_div(self@, s@),
    {
        Tuple { x: self.x.div(s), y: self.y.div(s), z: self.z.div(s), w: self.w.div(s) }
    }

    /// The dot product: the sum of the component-wise products of all four
    /// components.
    pub fn dot(&self, other: &Tuple) -> (r: Scalar)
        requires
            tv_wf(self@),
            tv_wf(other@),
            tv_dot_fits(self@, other@),
        ensures
            r.wf(),
            r@ == tv_dot(self@, other@),
    {
        self.x.mul(other.x).add(self.y.mul(other.y)).add(self.z.mul(other.z)).add(
            self.w.mul(other.w),
        )
    }

    /// The squared Euclidean norm over all four components: the dot product
    /// of the tuple with itself, and the exact radicand of its magnitude.
    pub fn magnitude_squared(&self) -> (r: Scalar)
        requires
            tv_wf(self@),
            tv_dot_fits(self@, self@),
        ensures
            r.wf(),
            r@ == tv_dot(self@, self@),
    {
        self.dot(self)
    }

    /// The cross product, reading x, y, z only and returning a vector.
    pub fn cross(&self, other: &Tuple) -> (r: Tuple)
        requires
            tv_wf(self@),
            tv_wf(other@),
            tv_cross_fits(self@, other@),
        ensures
            tv_wf(r@),
            r@ == tv_cross(self@, other@),
    {
        cross_product(self, other)
    }
}

/// Law: a constructed vector answers `is_vector` and not `is_point`; a
/// constructed point the reverse.
pub proof fn lemma_discriminants(x: Rat, y: Rat, z: Rat)
    ensures
        tv_is_vector(tv_vector(x, y, z)),
        !tv_is_point(tv_vector(x, y, z)),
        tv_is_point(tv_point(x, y, z)),
        !tv_is_vector(tv_point(x, y, z)),
{
}

/// Law: subtracting two points leaves a vector; subtracting a vector from a
/// point leaves a point; subtracting two vectors leaves a vector.
pub proof fn lemma_sub_discriminants(a: TupleView, b: TupleView)
    requires
        tv_wf(a),
        tv_wf(b),
    ensures
        tv_is_point(a) && tv_is_point(b) ==> tv_is_vector(tv_sub(a, b)),
        tv_is_point(a) && tv_is_vector(b) ==> tv_is_point(tv_sub(a, b)),
        tv_is_vector(a) && tv_is_vector(b) ==> tv_is_vector(tv_sub(a, b)),
{
    lemma_mul_comm(a.w.den, b.w.den);
}

/// Law: adding two vectors leaves a vector, and adding a vector to a point,
/// on either side, leaves a point.
pub proof fn lemma_add_discriminants(a: TupleView, b: TupleView)
    requires
        tv_wf(a),
        tv_wf(b),
    ensures
        tv_is_vector(a) && tv_is_vector(b) ==> tv_is_vector(tv_add(a, b)),
        tv_is_point(a) && tv_is_vector(b) ==> tv_is_point(tv_add(a, b)),
        tv_is_vector(a) && tv_is_point(b) ==> tv_is_point(tv_add(a, b)),
{
    lemma_mul_comm(a.w.den, b.w.den);
}

/// Law: subtracting a tuple and adding it back returns the original values.
pub proof fn lemma_sub_add_roundtrip(a: TupleView, b: TupleView)
    requires
        tv_wf(a),
        tv_wf(b),
    ensures
        tv_eq(tv_add(tv_sub(a, b), b), a),
{
    lemma_rat_sub_add(a.x, b.x);
    lemma_rat_sub_add(a.y, b.y);
    lemma_rat_sub_add(a.z, b.z);
    lemma_rat_sub_add(a.w, b.w);
}

/// Law: dividing a tuple by a scalar whose square is the tuple's squared
/// norm leaves a tuple of squared norm one. This is the content of
/// normalization, stated for every tuple whose norm is itself rational.
pub proof fn lemma_normalize_unit(v: TupleView, s: Rat)
    requires
        tv_wf(v),
        rat_wf(s),
        !rat_is_zero(s),
        rat_eq(rat_mul(s, s), tv_dot(v, v)),
    ensures
        rat_eq(tv_dot(tv_div(v, s), tv_div(v, s)), rat(1, 1)),
{
    let t = rat_recip(s);
    lemma_rat_div_is_mul_recip(v.x, s);
    lemma_rat_div_is_mul_recip(v.y, s);
    lemma_rat_div_is_mul_recip(v.z, s);
    lemma_rat_div_is_mul_recip(v.w, s);
    assert(tv_div(v, s) == tv_scale(v, t));
    lemma_rat_mul_square_swap(v.x, t);
    lemma_rat_mul_square_swap(v.y, t);
    lemma_rat_mul_square_swap(v.z, t);
    lemma_rat_mul_square_swap(v.w, t);
    let tt = rat_mul(t, t);
    let s1 = rat_mul(v.x, v.x);
    let s2 = rat_mul(v.y, v.y);
    let s3 = rat_mul(v.z, v.z);
    let s4 = rat_mul(v.w, v.w);
    let s12 = rat_add(s1, s2);
    let s123 = rat_add(s12, s3);
    let s1234 = rat_add(s123, s4);
    // The squared norm of the divided tuple, with every square pulled apart
    // into the common factor tt and a component square.
    let x3 = rat_add(rat_add(rat_add(rat_mul(tt, s1), rat_mul(tt, s2)), rat_mul(tt, s3)), rat_mul(tt, s4));
    assert(tv_dot(tv_div(v, s), tv_div(v, s)) == x3);
    // Denominators along the way are nonzero: component squares are
    // positive, and the reciprocal's square is positive.
    assert(t.den != 0);
    assert(t.den * t.den > 0) by (nonlinear_arith)
        requires
            t.den != 0,
    ;
    lemma_mul_pos(v.x.den, v.x.den);
    lemma_mul_pos(v.y.den, v.y.den);
    lemma_mul_pos(v.z.den, v.z.den);
    lemma_mul_pos(v.w.den, v.w.den);
    lemma_mul_pos(s1.den, s2.den);
    lemma_mul_pos(s12.den, s3.den);
    lemma_mul_pos(s123.den, s4.den);
    // Fold the common factor out of the sum, one addition at a time.
    lemma_rat_mul_distributes_add(tt, s1, s2);
    let x2 = rat_add(rat_add(rat_mul(tt, s1), rat_mul(tt, s2)), rat_mul(tt, s3));
    let y2 = rat_add(rat_mul(tt, s12), rat_mul(tt, s3));
    lemma_rat_add_congruence(
        rat_add(rat_mul(tt, s1), rat_mul(tt, s2)),
        rat_mul(tt, s3),
        rat_mul(tt, s12),
        rat_mul(tt, s3),
    );
    lemma_rat_mul_distributes_add(tt, s12, s3);
    lemma_mul_pos(tt.den, s12.den);
    lemma_mul_pos(tt.den, s3.den);
    lemma_mul_pos(tt.den * s12.den, tt.den * s3.den);
    lemma_rat_eq_trans(x2, y2, rat_mul(tt, s123));
    let y3 = rat_add(rat_mul(tt, s123), rat_mul(tt, s4));
    lemma_rat_add_congruence(x2, rat_mul(tt, s4), rat_mul(tt, s123), rat_mul(tt, s4));
    lemma_rat_mul_distributes_add(tt, s123, s4);
    lemma_mul_pos(tt.den, s123.den);
    lemma_mul_pos(tt.den, s4.den);
    lemma_mul_pos(tt.den * s123.den, tt.den * s4.den);
    lemma_rat_eq_trans(x3, y3, rat_mul(tt, s1234));
    // The folded factor times the squared norm has equal numerator and
    // denominator, because the square of s is that very norm.
    if s.num >= 0 {
        lemma_mul_comm(s.den * s.den, s1234.num);
        lemma_mul_comm(s1234.den, s.num * s.num);
    } else {
        assert(-s.den * -s.den == s.den * s.den) by (nonlinear_arith);
        assert(-s.num * -s.num == s.num * s.num) by (nonlinear_arith);
        lemma_mul_comm(s.den * s.den, s1234.num);
        lemma_mul_comm(s1234.den, s.num * s.num);
    }
    assert(rat_eq(rat_mul(tt, s1234), rat(1, 1)));
    lemma_mul_pos(tt.den, s1234.den);
    lemma_rat_eq_trans(x3, rat_mul(tt, s1234), rat(1, 1));
}

/// Law: the cross product is anticommutative; swapping the operands negates
/// the result.
pub proof fn lemma_cross_anticommutative(a: TupleView, b: TupleView)
    requires
        tv_wf(a),
        tv_wf(b),
    ensures
        tv_eq(tv_cross(b, a), tv_neg(tv_cross(a, b))),
{
    lemma_rat_mul_comm(b.y, a.z);
    lemma_rat_mul_comm(b.z, a.y);
    lemma_rat_sub_swap(rat_mul(b.y, a.z), rat_mul(b.z, a.y));
    lemma_rat_mul_comm(b.z, a.x);
    lemma_rat_mul_comm(b.x, a.z);
    lemma_rat_sub_swap(rat_mul(b.z, a.x), rat_mul(b.x, a.z));
    lemma_rat_mul_comm(b.x, a.y);
    lemma_rat_mul_comm(b.y, a.x);
    lemma_rat_sub_swap(rat_mul(b.x, a.y), rat_mul(b.y, a.x));
}

} // verus!
