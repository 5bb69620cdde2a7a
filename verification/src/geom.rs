//! Geometric primitives: directions, axes and linear length expressions.
//!
//! Lengths are integer length units; relative parts are stored in permille
//! of the base length they resolve against.

use vstd::prelude::*;

verus! {

/// Logical layout axis.
#[derive(Clone, Copy, Debug, PartialEq, Eq, Structural)]
pub enum Axis {
    Horizontal,
    Vertical,
}

/// A direction along one of the two logical axes.
#[derive(Clone, Copy, Debug, PartialEq, Eq, Structural)]
pub enum Dir {
    Ltr,
    Rtl,
    Ttb,
    Btt,
}

impl Dir {
    /// The axis this direction runs along.
    pub open spec fn axis_spec(self) -> Axis {
        match self {
            Dir::Ltr => Axis::Horizontal,
            Dir::Rtl => Axis::Horizontal,
            Dir::Ttb => Axis::Vertical,
            Dir::Btt => Axis::Vertical,
        }
    }

    pub fn axis(&self) -> (a: Axis)
        ensures
            a == self.axis_spec(),
    {
        match self {
            Dir::Ltr => Axis::Horizontal,
            Dir::Rtl => Axis::Horizontal,
            Dir::Ttb => Axis::Vertical,
            Dir::Btt => Axis::Vertical,
        }
    }
}

/// A linear length expression: an absolute part in length units plus a part
/// relative to a base length, in permille of that base.
#[derive(Clone, Copy, Debug, PartialEq, Eq, Structural)]
pub struct Linear {
    pub abs: u64,
    pub rel: u64,
}

impl Linear {
    /// The length this expression denotes against `base`, saturating at the
    /// largest representable length.
    pub open spec fn resolve_spec(self, base: u64) -> u64 {
        let t = self.abs + (self.rel * base) / 1000;
        if t > u64::MAX {
            u64::MAX
        } else {
            t as u64
        }
    }

    pub open spec fn is_zero_spec(self) -> bool {
        self.abs == 0 && self.rel == 0
    }

    pub fn zero() -> (l: Linear)
        ensures
            l == (Linear { abs: 0, rel: 0 }),
    {
        Linear { abs: 0, rel: 0 }
    }

    pub fn is_zero(&self) -> (r: bool)
        ensures
            r == self.is_zero_spec(),
    {
        self.abs == 0 && self.rel == 0
    }

    /// Resolve the relative part against `base` and add the absolute part.
    pub fn resolve(&self, base: u64) -> (r: u64)
        ensures
            r == self.resolve_spec(base),
    {
        proof {
            vstd::arithmetic::mul::lemma_mul_upper_bound(
                self.rel as int,
                u64::MAX as int,
                base as int,
                u64::MAX as int,
            );
        }
        let prod: u128 = (self.rel as u128) * (base as u128);
        let scaled: u128 = prod / 1000;
        let total: u128 = (self.abs as u128) + scaled;
        if total > u64::MAX as u128 {
            u64::MAX
        } else {
            total as u64
        }
    }
}

} // verus!
