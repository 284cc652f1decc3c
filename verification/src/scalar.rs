//! The executable scalar: an exact quotient of two `i64` values with a
//! positive denominator.
//!
//! Every arithmetic operation states its result over the rational model in
//! `crate::rat` and is proved to compute exactly that quotient. Intermediate
//! products are taken in 128 bits, so a precondition only has to say that the
//! final quotient fits the 64-bit representation. Equality of scalars is
//! value equality: quotients compare by cross-multiplication.

use vstd::prelude::*;

use crate::rat::{
    lemma_mul_by_den_range, lemma_mul_i64_range, lemma_mul_pos, lemma_mul_pos_neg, rat, rat_add,
    rat_div, rat_eq, rat_fits, rat_mul, rat_neg, rat_sub, Rat,
};

verus! {

/// An exact scalar: the rational `num / den`.
#[derive(Clone, Copy, Debug)]
pub struct Scalar {
    pub num: i64,
    pub den: i64,
}

impl View for Scalar {
    type V = Rat;

    open spec fn view(&self) -> Rat {
        rat(self.num as int, self.den as int)
    }
}

impl PartialEq for Scalar {
    /// Scalars are equal when they stand for the same rational value.
    fn eq(&self, other: &Scalar) -> (r: bool) {
        proof {
            lemma_mul_i64_range(self.num as int, other.den as int);
            lemma_mul_i64_range(other.num as int, self.den as int);
        }
        (self.num as i128) * (other.den as i128) == (other.num as i128) * (self.den as i128)
    }
}

impl vstd::std_specs::cmp::PartialEqSpecImpl for Scalar {
    open spec fn obeys_eq_spec() -> bool {
        true
    }

    open spec fn eq_spec(&self, other: &Scalar) -> bool {
        rat_eq(self@, other@)
    }
}

impl Scalar {
    /// The denominator is positive, so the value is defined.
    pub open spec fn wf(self) -> bool {
        self.den > 0
    }

    pub fn new(num: i64, den: i64) -> (r: Scalar)
        requires
            den > 0,
        ensures
            r.wf(),
            r@ == rat(num as int, den as int),
    {
        Scalar { num, den }
    }

    pub fn from_int(num: i64) -> (r: Scalar)
        ensures
            r.wf(),
            r@ == rat(num as int, 1),
    {
        Scalar { num, den: 1 }
    }

    pub fn add(self, other: Scalar) -> (r: Scalar)
        requires
            self.wf(),
            other.wf(),
            rat_fits(rat_add(self@, other@)),
        ensures
            r.wf(),
            r@ == rat_add(self@, other@),
    {
        proof {
            lemma_mul_by_den_range(self.num as int, other.den as int);
            lemma_mul_by_den_range(other.num as int, self.den as int);
            lemma_mul_by_den_range(self.den as int, other.den as int);
            lemma_mul_pos(self.den as int, other.den as int);
        }
        let n: i128 = (self.num as i128) * (other.den as i128) + (other.num as i128) * (self.den
            as i128);
        let d: i128 = (self.den as i128) * (other.den as i128);
        Scalar { num: n as i64, den: d as i64 }
    }

    pub fn sub(self, other: Scalar) -> (r: Scalar)
        requires
            self.wf(),
            other.wf(),
            rat_fits(rat_sub(self@, other@)),
        ensures
            r.wf(),
            r@ == rat_sub(self@, other@),
    {
        proof {
            lemma_mul_by_den_range(self.num as int, other.den as int);
            lemma_mul_by_den_range(other.num as int, self.den as int);
            lemma_mul_by_den_range(self.den as int, other.den as int);
            lemma_mul_pos(self.den as int, other.den as int);
        }
        let n: i128 = (self.num as i128) * (other.den as i128) - (other.num as i128) * (self.den
            as i128);
        let d: i128 = (self.den as i128) * (other.den as i128);
        Scalar { num: n as i64, den: d as i64 }
    }

    pub fn neg(self) -> (r: Scalar)
        requires
            self.wf(),
            rat_fits(rat_neg(self@)),
        ensures
            r.wf(),
            r@ == rat_neg(self@),
    {
        Scalar { num: -self.num, den: self.den }
    }

    pub fn mul(self, other: Scalar) -> (r: Scalar)
        requires
            self.wf(),
            other.wf(),
            rat_fits(rat_mul(self@, other@)),
        ensures
            r.wf(),
            r@ == rat_mul(self@, other@),
    {
        proof {
            lemma_mul_i64_range(self.num as int, other.num as int);
            lemma_mul_by_den_range(self.den as int, other.den as int);
            lemma_mul_pos(self.den as int, other.den as int);
        }
        let n: i128 = (self.num as i128) * (other.num as i128);
        let d: i128 = (self.den as i128) * (other.den as i128);
        Scalar { num: n as i64, den: d as i64 }
    }

    /// Division by a scalar whose value is zero has no rational result, so
    /// such a divisor is ruled out up front.
    pub fn div(self, other: Scalar) -> (r: Scalar)
        requires
            self.wf(),
            other.wf(),
            other@.num != 0,
            rat_fits(rat_div(self@, other@)),
        ensures
            r.wf(),
            r@ == rat_div(self@, other@),
    {
        proof {
            lemma_mul_by_den_range(self.num as int, other.den as int);
            lemma_mul_by_den_range(other.num as int, self.den as int);
            if other.num > 0 {
                lemma_mul_pos(self.den as int, other.num as int);
            } else {
                lemma_mul_pos_neg(self.den as int, other.num as int);
            }
        }
        let mut n: i128 = (self.num as i128) * (other.den as i128);
        let mut d: i128 = (self.den as i128) * (other.num as i128);
        if other.num < 0 {
            n = -n;
            d = -d;
        }
        Scalar { num: n as i64, den: d as i64 }
    }
}

} // verus!
