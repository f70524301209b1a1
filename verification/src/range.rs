//! The range of values that a knob sweeps.

use crate::binary32::Binary32;
use vstd::prelude::*;

verus! {

/// A pair of bounds. `min` is where the knob starts and `max` where it ends:
/// either may be the larger one, an infinity or a NaN.
#[derive(Clone, Copy, Debug, PartialEq, Eq, Structural)]
pub struct ValueRange {
    pub min: Binary32,
    pub max: Binary32,
}

impl ValueRange {
    /// A bound is a NaN.
    pub open spec fn has_nan(self) -> bool {
        self.min@ is Nan || self.max@ is Nan
    }

    /// The bounds are equal as numbers: the range is a single point.
    pub open spec fn is_degenerate(self) -> bool {
        self.min@.num_eq(self.max@)
    }

    /// The range runs downwards, from the larger bound to the smaller.
    pub open spec fn is_inverted(self) -> bool {
        self.min@.gt(self.max@)
    }

    /// The range runs upwards and is more than a point.
    pub open spec fn is_rising(self) -> bool {
        self.min@.lt(self.max@)
    }

    /// Both bounds are finite: neither is a NaN or an infinity. A linear
    /// knob needs such a range; infinite bounds call for a logarithmic one.
    pub open spec fn is_finite(self) -> bool {
        self.min@ is Finite && self.max@ is Finite
    }

    /// The same stretch, run through the other way.
    pub open spec fn swapped(self) -> ValueRange {
        ValueRange { min: self.max, max: self.min }
    }

    /// The range mirrored at zero, bound by bound.
    pub open spec fn negated(self) -> ValueRange {
        ValueRange { min: self.min.negation(), max: self.max.negation() }
    }

    /// The smaller bound of a range without a NaN.
    pub open spec fn lower(self) -> Binary32 {
        if self.is_inverted() {
            self.max
        } else {
            self.min
        }
    }

    /// The larger bound of a range without a NaN.
    pub open spec fn upper(self) -> Binary32 {
        if self.is_inverted() {
            self.min
        } else {
            self.max
        }
    }

    /// `value` limited to the range, whichever way the range runs: the lower
    /// bound where `value` is below it, the upper bound where it is above,
    /// `value` itself otherwise. No number can be held against a NaN, so a
    /// range with a NaN bound, like a NaN value, leaves `value` as it is.
    pub open spec fn clamped(self, value: Binary32) -> Binary32 {
        if self.has_nan() {
            value
        } else {
            value.clamped(self.lower(), self.upper())
        }
    }

    /// Every range is of exactly one of these four kinds.
    pub proof fn lemma_kinds(self)
        ensures
            self.has_nan() || self.is_degenerate() || self.is_inverted() || self.is_rising(),
            !(self.has_nan() && self.is_degenerate()),
            !(self.has_nan() && self.is_inverted()),
            !(self.has_nan() && self.is_rising()),
            !(self.is_degenerate() && self.is_inverted()),
            !(self.is_degenerate() && self.is_rising()),
            !(self.is_inverted() && self.is_rising()),
    {
    }

    /// The range from `min` to `max`.
    pub fn new(min: Binary32, max: Binary32) -> (r: ValueRange)
        ensures
            r.min == min,
            r.max == max,
    {
        ValueRange { min, max }
    }

    /// Whether a bound is a NaN.
    pub fn contains_nan(&self) -> (r: bool)
        ensures
            r == self.has_nan(),
    {
        self.min.is_nan() || self.max.is_nan()
    }

    /// Whether the range is a single point.
    pub fn degenerate(&self) -> (r: bool)
        ensures
            r == self.is_degenerate(),
    {
        self.min.num_eq(self.max)
    }

    /// Whether the range runs downwards.
    pub fn inverted(&self) -> (r: bool)
        ensures
            r == self.is_inverted(),
    {
        self.min.gt(self.max)
    }

    /// Whether both bounds are finite.
    pub fn finite(&self) -> (r: bool)
        ensures
            r == self.is_finite(),
    {
        self.min.is_finite() && self.max.is_finite()
    }

    /// The same stretch, run through the other way.
    pub fn swap(&self) -> (r: ValueRange)
        ensures
            r == self.swapped(),
    {
        ValueRange { min: self.max, max: self.min }
    }

    /// The range mirrored at zero. Mirroring turns the direction: of a rising
    /// range it makes an inverted one, and the other way round.
    pub fn negate(&self) -> (r: ValueRange)
        ensures
            r == self.negated(),
            r.has_nan() == self.has_nan(),
            r.is_degenerate() == self.is_degenerate(),
            r.is_inverted() == self.is_rising(),
            r.is_rising() == self.is_inverted(),
    {
        ValueRange { min: self.min.neg(), max: self.max.neg() }
    }

    /// `value` limited to the range.
    pub fn clamp(&self, value: Binary32) -> (r: Binary32)
        ensures
            r == self.clamped(value),
    {
        if self.contains_nan() {
            value
        } else if self.inverted() {
            value.clamp(self.max, self.min)
        } else {
            value.clamp(self.min, self.max)
        }
    }
}

} // verus!
