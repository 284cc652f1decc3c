//! The mathematical model: unbounded rational numbers, written as a
//! numerator and a denominator of type `int`.
//!
//! A quotient is well formed when its denominator is positive. Two quotients
//! stand for the same rational exactly when they cross-multiply equally; the
//! arithmetic below never reduces a quotient, so each operation's result is
//! pinned down to one representative.

use vstd::prelude::*;

verus! {

/// A rational number as a quotient of two unbounded integers.
pub ghost struct Rat {
    pub num: int,
    pub den: int,
}

pub open spec fn rat(num: int, den: int) -> Rat {
    Rat { num, den }
}

/// A quotient is well formed when its denominator is positive.
pub open spec fn rat_wf(a: Rat) -> bool {
    a.den > 0
}

/// Value equality of quotients: a/b == c/d exactly when a*d == c*b.
pub open spec fn rat_eq(a: Rat, b: Rat) -> bool {
    a.num * b.den == b.num * a.den
}

pub open spec fn rat_add(a: Rat, b: Rat) -> Rat {
    rat(a.num * b.den + b.num * a.den, a.den * b.den)
}

pub open spec fn rat_sub(a: Rat, b: Rat) -> Rat {
    rat(a.num * b.den - b.num * a.den, a.den * b.den)
}

pub open spec fn rat_neg(a: Rat) -> Rat {
    rat(-a.num, a.den)
}

pub open spec fn rat_mul(a: Rat, b: Rat) -> Rat {
    rat(a.num * b.num, a.den * b.den)
}

/// Division keeps the denominator positive by flipping both signs when the
/// divisor's numerator is negative.
pub open spec fn rat_div(a: Rat, b: Rat) -> Rat {
    if b.num >= 0 {
        rat(a.num * b.den, a.den * b.num)
    } else {
        rat(-(a.num * b.den), -(a.den * b.num))
    }
}

pub open spec fn rat_is_zero(a: Rat) -> bool {
    a.num == 0
}

pub open spec fn rat_is_one(a: Rat) -> bool {
    a.num == a.den
}

pub open spec fn fits_i64(x: int) -> bool {
    -0x8000_0000_0000_0000 <= x <= 0x7fff_ffff_ffff_ffff
}

/// Both parts of the quotient fit the machine representation.
pub open spec fn rat_fits(a: Rat) -> bool {
    fits_i64(a.num) && fits_i64(a.den)
}

/// The product of two values in 64-bit signed range stays within 2^126.
pub proof fn lemma_mul_i64_range(a: int, b: int)
    by (nonlinear_arith)
    requires
        -0x8000_0000_0000_0000 <= a <= 0x7fff_ffff_ffff_ffff,
        -0x8000_0000_0000_0000 <= b <= 0x7fff_ffff_ffff_ffff,
    ensures
        -0x4000_0000_0000_0000_0000_0000_0000_0000 <= a * b,
        a * b <= 0x4000_0000_0000_0000_0000_0000_0000_0000,
{
}

/// The product of a value in 64-bit signed range with a positive value in
/// that range stays within 2^126 - 2^63, so two such products can be added
/// in 128 bits.
pub proof fn lemma_mul_by_den_range(a: int, d: int)
    by (nonlinear_arith)
    requires
        -0x8000_0000_0000_0000 <= a <= 0x7fff_ffff_ffff_ffff,
        0 < d <= 0x7fff_ffff_ffff_ffff,
    ensures
        -0x3fff_ffff_ffff_ffff_8000_0000_0000_0000 <= a * d,
        a * d <= 0x3fff_ffff_ffff_ffff_8000_0000_0000_0000,
        -0x3fff_ffff_ffff_ffff_8000_0000_0000_0000 <= d * a,
        d * a <= 0x3fff_ffff_ffff_ffff_8000_0000_0000_0000,
{
}

pub proof fn lemma_mul_pos(a: int, b: int)
    by (nonlinear_arith)
    requires
        0 < a,
        0 < b,
    ensures
        0 < a * b,
{
}

pub proof fn lemma_mul_pos_neg(a: int, b: int)
    by (nonlinear_arith)
    requires
        0 < a,
        b < 0,
    ensures
        a * b < 0,
{
}

/// Subtracting a quotient and adding it back yields the original value.
pub proof fn lemma_rat_sub_add(p: Rat, q: Rat)
    ensures
        rat_eq(rat_add(rat_sub(p, q), q), p),
{
    assert(((p.num * q.den - q.num * p.den) * q.den + q.num * (p.den * q.den)) * p.den == p.num
        * ((p.den * q.den) * q.den)) by (nonlinear_arith);
}

/// Swapping the operands of a subtraction negates its value.
pub proof fn lemma_rat_sub_swap(p: Rat, q: Rat)
    ensures
        rat_eq(rat_sub(p, q), rat_neg(rat_sub(q, p))),
{
    assert((p.num * q.den - q.num * p.den) * (q.den * p.den) == -(q.num * p.den - p.num * q.den)
        * (p.den * q.den)) by (nonlinear_arith);
}

/// Multiplication of quotients is commutative, representative for
/// representative.
pub proof fn lemma_rat_mul_comm(p: Rat, q: Rat)
    ensures
        rat_mul(p, q) == rat_mul(q, p),
{
    assert(p.num * q.num == q.num * p.num) by (nonlinear_arith);
    assert(p.den * q.den == q.den * p.den) by (nonlinear_arith);
}

pub proof fn lemma_mul_comm(a: int, b: int)
    by (nonlinear_arith)
    ensures
        a * b == b * a,
{
}

/// The reciprocal, with the sign moved so that a well-formed nonzero
/// quotient has a well-formed reciprocal.
pub open spec fn rat_recip(a: Rat) -> Rat {
    if a.num >= 0 {
        rat(a.den, a.num)
    } else {
        rat(-a.den, -a.num)
    }
}

/// Division is multiplication by the reciprocal, representative for
/// representative.
pub proof fn lemma_rat_div_is_mul_recip(a: Rat, b: Rat)
    ensures
        rat_div(a, b) == rat_mul(a, rat_recip(b)),
{
    if b.num < 0 {
        assert(a.num * -b.den == -(a.num * b.den)) by (nonlinear_arith);
        assert(a.den * -b.num == -(a.den * b.num)) by (nonlinear_arith);
    }
}

/// Value equality is transitive through a quotient whose denominator is
/// nonzero.
pub proof fn lemma_rat_eq_trans(a: Rat, b: Rat, c: Rat)
    requires
        b.den != 0,
        rat_eq(a, b),
        rat_eq(b, c),
    ensures
        rat_eq(a, c),
{
    assert(a.num * c.den == c.num * a.den) by (nonlinear_arith)
        requires
            b.den != 0,
            a.num * b.den == b.num * a.den,
            b.num * c.den == c.num * b.den,
    ;
}

/// Replacing both operands of an addition by equal values gives an equal
/// value.
pub proof fn lemma_rat_add_congruence(a: Rat, b: Rat, a2: Rat, b2: Rat)
    requires
        rat_eq(a, a2),
        rat_eq(b, b2),
    ensures
        rat_eq(rat_add(a, b), rat_add(a2, b2)),
{
    lemma_add_cross_expand(a.num, a.den, b.num, b.den, a2.den, b2.den);
    lemma_add_cross_expand(a2.num, a2.den, b2.num, b2.den, a.den, b.den);
    lemma_mul_comm(b.den, b2.den);
    lemma_mul_comm(a.den, a2.den);
}

/// Distributing a factor into a sum.
proof fn lemma_distrib(p: int, q: int, x: int)
    by (nonlinear_arith)
    ensures
        (p + q) * x == p * x + q * x,
        x * p + x * q == x * (p + q),
{
}

/// Regroupings of a product of four factors.
proof fn lemma_mul4(a: int, b: int, c: int, d: int)
    by (nonlinear_arith)
    ensures
        (a * b) * (c * d) == (a * c) * (b * d),
        (a * b) * (c * d) == (a * d) * (b * c),
{
}

proof fn lemma_mul_assoc(a: int, b: int, c: int)
    by (nonlinear_arith)
    ensures
        (a * b) * c == a * (b * c),
{
}

/// Expands the cross-multiplied numerator of a sum of quotients.
proof fn lemma_add_cross_expand(an: int, ad: int, bn: int, bd: int, cd: int, dd: int)
    ensures
        (an * bd + bn * ad) * (cd * dd) == (an * cd) * (bd * dd) + (bn * dd) * (ad * cd),
{
    lemma_distrib(an * bd, bn * ad, cd * dd);
    lemma_mul4(an, bd, cd, dd);
    lemma_mul4(bn, ad, cd, dd);
}

/// Rearranges a product of five factors between its two groupings.
proof fn lemma_mul_shuffle(cn: int, cd: int, s: int, ad: int, bd: int)
    ensures
        ((cn * cd) * s) * (cd * (ad * bd)) == (cn * s) * ((cd * ad) * (cd * bd)),
{
    lemma_mul4(cn * cd, s, cd, ad * bd);
    assert(((cn * cd) * s) * (cd * (ad * bd)) == ((cn * cd) * cd) * (s * (ad * bd)));
    lemma_mul_assoc(cn, cd, cd);
    lemma_mul4(cn, cd * cd, s, ad * bd);
    assert((cn * (cd * cd)) * (s * (ad * bd)) == (cn * s) * ((cd * cd) * (ad * bd)));
    lemma_mul4(cd, ad, cd, bd);
    assert((cd * ad) * (cd * bd) == (cd * cd) * (ad * bd));
}

/// Pulls a common factor out of a sum of two products of quotients.
proof fn lemma_factor_common(cn: int, cd: int, an: int, ad: int, bn: int, bd: int)
    ensures
        (cn * an) * (cd * bd) + (cn * bn) * (cd * ad) == (cn * cd) * (an * bd + bn * ad),
{
    lemma_mul4(cn, an, cd, bd);
    lemma_mul4(cn, bn, cd, ad);
    lemma_distrib(an * bd, bn * ad, cn * cd);
}

/// Multiplication distributes over addition of quotients.
pub proof fn lemma_rat_mul_distributes_add(c: Rat, a: Rat, b: Rat)
    ensures
        rat_eq(rat_add(rat_mul(c, a), rat_mul(c, b)), rat_mul(c, rat_add(a, b))),
{
    lemma_factor_common(c.num, c.den, a.num, a.den, b.num, b.den);
    lemma_mul_shuffle(c.num, c.den, a.num * b.den + b.num * a.den, a.den, b.den);
}

/// The square of a product is the product of the squares, representative
/// for representative.
pub proof fn lemma_rat_mul_square_swap(a: Rat, t: Rat)
    ensures
        rat_mul(rat_mul(a, t), rat_mul(a, t)) == rat_mul(rat_mul(t, t), rat_mul(a, a)),
{
    assert((a.num * t.num) * (a.num * t.num) == (t.num * t.num) * (a.num * a.num))
        by (nonlinear_arith);
    assert((a.den * t.den) * (a.den * t.den) == (t.den * t.den) * (a.den * a.den))
        by (nonlinear_arith);
}

} // verus!
