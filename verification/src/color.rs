//! Three-component colors over exact scalars.
//!
//! A color is a red/green/blue triple with no constraint on range: values
//! may exceed one or go negative, and clamping is a consumer's concern.
//! Colors add and subtract component-wise, multiply component-wise (the
//! Hadamard product used for tint blending), and scale uniformly by a
//! scalar.

use vstd::prelude::*;

use crate::rat::{rat_add, rat_eq, rat_fits, rat_mul, rat_sub, rat_wf, Rat};
use crate::scalar::Scalar;

verus! {

/// The model of a color: three unbounded rationals.
pub ghost struct ColorView {
    pub red: Rat,
    pub green: Rat,
    pub blue: Rat,
}

pub open spec fn cv(red: Rat, green: Rat, blue: Rat) -> ColorView {
    ColorView { red, green, blue }
}

pub open spec fn cv_wf(c: ColorView) -> bool {
    rat_wf(c.red) && rat_wf(c.green) && rat_wf(c.blue)
}

/// Component-wise value equality.
pub open spec fn cv_eq(a: ColorView, b: ColorView) -> bool {
    rat_eq(a.red, b.red) && rat_eq(a.green, b.green) && rat_eq(a.blue, b.blue)
}

pub open spec fn cv_add(a: ColorView, b: ColorView) -> ColorView {
    cv(rat_add(a.red, b.red), rat_add(a.green, b.green), rat_add(a.blue, b.blue))
}

pub open spec fn cv_sub(a: ColorView, b: ColorView) -> ColorView {
    cv(rat_sub(a.red, b.red), rat_sub(a.green, b.green), rat_sub(a.blue, b.blue))
}

pub open spec fn cv_mul(a: ColorView, b: ColorView) -> ColorView {
    cv(rat_mul(a.red, b.red), rat_mul(a.green, b.green), rat_mul(a.blue, b.blue))
}

pub open spec fn cv_scale(a: ColorView, s: Rat) -> ColorView {
    cv(rat_mul(a.red, s), rat_mul(a.green, s), rat_mul(a.blue, s))
}

pub open spec fn cv_add_fits(a: ColorView, b: ColorView) -> bool {
    rat_fits(rat_add(a.red, b.red)) && rat_fits(rat_add(a.green, b.green)) && rat_fits(
        rat_add(a.blue, b.blue),
    )
}

pub open spec fn cv_sub_fits(a: ColorView, b: ColorView) -> bool {
    rat_fits(rat_sub(a.red, b.red)) && rat_fits(rat_sub(a.green, b.green)) && rat_fits(
        rat_sub(a.blue, b.blue),
    )
}

pub open spec fn cv_mul_fits(a: ColorView, b: ColorView) -> bool {
    rat_fits(rat_mul(a.red, b.red)) && rat_fits(rat_mul(a.green, b.green)) && rat_fits(
        rat_mul(a.blue, b.blue),
    )
}

pub open spec fn cv_scale_fits(a: ColorView, s: Rat) -> bool {
    rat_fits(rat_mul(a.red, s)) && rat_fits(rat_mul(a.green, s)) && rat_fits(rat_mul(a.blue, s))
}

/// A red/green/blue triple of exact components, range unconstrained.
#[derive(Clone, Copy, Debug)]
pub struct Color {
    pub red: Scalar,
    pub green: Scalar,
    pub blue: Scalar,
}

impl View for Color {
    type V = ColorView;

    open spec fn view(&self) -> ColorView {
        cv(self.red@, self.green@, self.blue@)
    }
}

impl PartialEq for Color {
    /// Colors are equal when all three components have equal values.
    fn eq(&self, other: &Color) -> (r: bool) {
        self.red == other.red && self.green == other.green && self.blue == other.blue
    }
}

impl vstd::std_specs::cmp::PartialEqSpecImpl for Color {
    open spec fn obeys_eq_spec() -> bool {
        true
    }

    open spec fn eq_spec(&self, other: &Color) -> bool {
        cv_eq(self@, other@)
    }
}

impl Color {
    /// Component-wise sum.
    pub fn add(self, other: Color) -> (r: Color)
        requires
            cv_wf(self@),
            cv_wf(other@),
            cv_add_fits(self@, other@),
        ensures
            cv_wf(r@),
            r@ == cv_add(self@, other@),
    {
        Color {
            red: self.red.add(other.red),
            green: self.green.add(other.green),
            blue: self.blue.add(other.blue),
        }
    }

    /// Component-wise difference.
    pub fn sub(self, other: Color) -> (r: Color)
        requires
            cv_wf(self@),
            cv_wf(other@),
            cv_sub_fits(self@, other@),
        ensures
            cv_wf(r@),
            r@ == cv_sub(self@, other@),
    {
        Color {
            red: self.red.sub(other.red),
            green: self.green.sub(other.green),
            blue: self.blue.sub(other.blue),
        }
    }

    /// The Hadamard product: component-wise multiplication of two colors.
    pub fn mul(self, other: Color) -> (r: Color)
        requires
            cv_wf(self@),
            cv_wf(other@),
            cv_mul_fits(self@, other@),
        ensures
            cv_wf(r@),
            r@ == cv_mul(self@, other@),
    {
        Color {
            red: self.red.mul(other.red),
            green: self.green.mul(other.green),
            blue: self.blue.mul(other.blue),
        }
    }

    /// Scales every component by a scalar.
    pub fn scale(self, s: Scalar) -> (r: Color)
        requires
            cv_wf(self@),
            s.wf(),
            cv_scale_fits(self@, s@),
        ensures
            cv_wf(r@),
            r@ == cv_scale(self@, s@),
    {
        Color { red: self.red.mul(s), green: self.green.mul(s), blue: self.blue.mul(s) }
    }
}

} // verus!
