//! Parametric damage curves.
//!
//! A curve is a linear, quadratic or cubic Bézier over the normalized domain
//! `[0, 1]`. Its control values are IEEE-754 single-precision numbers; the
//! verified core carries them as their 32-bit bit patterns and never does
//! arithmetic on them, so that the numeric evaluation — which is floating
//! point and outside what the verifier covers — stays bit-for-bit faithful
//! in the surrounding application code.

use vstd::prelude::*;

verus! {

/// A linear Bézier curve; `a` and `b` are bit patterns of the two control
/// values.
#[derive(Clone, Copy, PartialEq, Eq, Structural, Debug)]
pub struct Linear {
    pub a: u32,
    pub b: u32,
}

/// A quadratic Bézier curve; the fields are bit patterns of the three
/// control values.
#[derive(Clone, Copy, PartialEq, Eq, Structural, Debug)]
pub struct Quadratic {
    pub a: u32,
    pub b: u32,
    pub c: u32,
}

/// A cubic Bézier curve; the fields are bit patterns of the four control
/// values.
#[derive(Clone, Copy, PartialEq, Eq, Structural, Debug)]
pub struct Cubic {
    pub a: u32,
    pub b: u32,
    pub c: u32,
    pub d: u32,
}

/// A damage curve of one of the three supported degrees.
#[derive(Clone, Copy, PartialEq, Eq, Structural, Debug)]
pub enum Curve {
    Linear(Linear),
    Quadratic(Quadratic),
    Cubic(Cubic),
}

impl Curve {
    /// A linear curve from two control value bit patterns.
    pub fn linear(a: u32, b: u32) -> (r: Curve)
        ensures
            r == Curve::Linear(Linear { a, b }),
    {
        Curve::Linear(Linear { a, b })
    }

    /// A quadratic curve from three control value bit patterns.
    pub fn quadratic(a: u32, b: u32, c: u32) -> (r: Curve)
        ensures
            r == Curve::Quadratic(Quadratic { a, b, c }),
    {
        Curve::Quadratic(Quadratic { a, b, c })
    }

    /// A cubic curve from four control value bit patterns.
    pub fn cubic(a: u32, b: u32, c: u32, d: u32) -> (r: Curve)
        ensures
            r == Curve::Cubic(Cubic { a, b, c, d }),
    {
        Curve::Cubic(Cubic { a, b, c, d })
    }
}

} // verus!
