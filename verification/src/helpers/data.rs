//! Plain vertex attribute records.
//!
//! The engine stores every normalized quantity (texture coordinates,
//! color channels, texture-transform offsets) as an exact ratio of two
//! integers instead of a floating-point number, so that every layout rule
//! about them can be stated and proved exactly.

use vstd::prelude::*;

verus! {

/// An exact ratio `num / den`.  The denominator is always positive.
///
/// Two ratios are equal exactly when their components are equal; the
/// library never reduces them, so a contract that promises
/// `translate == (Frac { num: fx, den: w })` pins the stored value
/// completely.
#[derive(Clone, Copy, Debug, PartialEq, Eq, Structural, Hash)]
pub struct Frac {
    pub num: i64,
    pub den: i64,
}

impl Frac {
    /// A well-formed ratio has a positive denominator.
    pub open spec fn wf(self) -> bool {
        self.den > 0
    }

    pub fn new(num: i64, den: i64) -> (r: Frac)
        requires
            den > 0,
        ensures
            r == (Frac { num, den }),
            r.wf(),
    {
        Frac { num, den }
    }

    /// The ratio `num / 1`, for whole quantities.
    pub fn whole(num: i64) -> (r: Frac)
        ensures
            r == (Frac { num, den: 1 }),
            r.wf(),
    {
        Frac { num, den: 1 }
    }

    /// The ratio `0 / 1`.
    pub fn zero() -> (r: Frac)
        ensures
            r == (Frac { num: 0, den: 1 }),
            r.wf(),
    {
        Frac { num: 0, den: 1 }
    }

    /// The ratio `1 / 1`.
    pub fn one() -> (r: Frac)
        ensures
            r == (Frac { num: 1, den: 1 }),
            r.wf(),
    {
        Frac { num: 1, den: 1 }
    }
}

/// A single unsigned 32-bit vertex attribute.
#[allow(non_camel_case_types)]
#[derive(Clone, Copy, Debug, PartialEq, Eq, Structural, Hash)]
pub struct u32_ {
    pub d0: u32,
}

impl u32_ {
    pub fn new(d0: u32) -> (r: u32_)
        ensures
            r == (u32_ { d0 }),
    {
        u32_ { d0 }
    }
}

/// A single signed 8-bit vertex attribute.
#[allow(non_camel_case_types)]
#[derive(Clone, Copy, Debug, PartialEq, Eq, Structural, Hash)]
pub struct i8_ {
    pub d0: i8,
}

impl i8_ {
    pub fn new(d0: i8) -> (r: i8_)
        ensures
            r == (i8_ { d0 }),
    {
        i8_ { d0 }
    }
}

/// A single signed 8-bit vertex attribute that the device normalizes.
#[allow(non_camel_case_types)]
#[derive(Clone, Copy, Debug, PartialEq, Eq, Structural, Hash)]
pub struct i8_float {
    pub d0: i8,
}

impl i8_float {
    pub fn new(d0: i8) -> (r: i8_float)
        ensures
            r == (i8_float { d0 }),
    {
        i8_float { d0 }
    }
}

} // verus!
