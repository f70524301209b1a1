//! Between a knob's value and its position on the unit interval.
//!
//! A knob shows a value from its range as a position from zero to one, and
//! turns a position back into a value. Ranges may run downwards, may be a
//! single point, may hold a NaN, and logarithmic ones may touch zero or
//! infinity or reach across zero. Which of these holds decides how a value
//! is mapped, and the cases are tried in a fixed order.
//!
//! This module makes those decisions. Each of the two mappings is answered
//! by a [`Step`]: either the result itself, or the one piece of arithmetic
//! that yields it, possibly from the answer for a simpler range. The caller
//! does the arithmetic, and comes back with the simpler range where there is
//! one; [`lemma_steps_descend`] shows that this ends after a few rounds.

use crate::binary32::{
    lemma_magnitude_units_increase, lemma_named_numbers, Binary32, Number, HALF_BITS, NAN_BITS, ONE_BITS,
    ZERO_BITS,
};
use crate::range::ValueRange;
use vstd::prelude::*;

verus! {

/// The width, in powers of ten, that stands for an infinitely wide
/// logarithmic range: ten, as a bit pattern.
pub const INF_RANGE_MAGNITUDE_BITS: u32 = 0x4120_0000;

/// How a knob maps its range.
#[derive(Clone, Copy, Debug, PartialEq, Eq, Structural)]
pub struct KnobSpec {
    /// Positions are spread evenly over the logarithm of the value.
    pub logarithmic: bool,
    /// For a logarithmic range that touches zero: the smallest magnitude
    /// still told apart from zero.
    pub smallest_finite: Binary32,
    /// For a logarithmic range that touches infinity: the largest magnitude
    /// still told apart from infinity.
    pub largest_finite: Binary32,
}

/// A millionth, as a bit pattern: the smallest magnitude of a knob that was
/// given none.
pub const SMALLEST_FINITE_BITS: u32 = 0x3586_37bd;

/// A million, as a bit pattern: the largest magnitude of a knob that was
/// given none.
pub const LARGEST_FINITE_BITS: u32 = 0x4974_2400;

impl KnobSpec {
    /// Both magnitudes are strictly positive, as logarithms need them.
    pub open spec fn well_formed(self) -> bool {
        &&& self.smallest_finite@.gt(Number::Finite(0))
        &&& self.largest_finite@.gt(Number::Finite(0))
    }

    /// Linear, with a millionth and a million for the two magnitudes.
    pub open spec fn initial() -> KnobSpec {
        KnobSpec {
            logarithmic: false,
            smallest_finite: Binary32 { bits: SMALLEST_FINITE_BITS },
            largest_finite: Binary32 { bits: LARGEST_FINITE_BITS },
        }
    }

    /// The magnitudes that a knob starts with are in order.
    pub proof fn lemma_initial_well_formed()
        ensures
            KnobSpec::initial().well_formed(),
    {
        lemma_magnitude_units_increase(0, SMALLEST_FINITE_BITS);
        lemma_magnitude_units_increase(0, LARGEST_FINITE_BITS);
    }
}

impl Default for KnobSpec {
    fn default() -> (r: KnobSpec)
        ensures
            r == KnobSpec::initial(),
            r.well_formed(),
    {
        proof {
            KnobSpec::lemma_initial_well_formed();
        }
        KnobSpec {
            logarithmic: false,
            smallest_finite: Binary32::from_bits(SMALLEST_FINITE_BITS),
            largest_finite: Binary32::from_bits(LARGEST_FINITE_BITS),
        }
    }
}

/// One end of a range in logarithmic space.
#[derive(Clone, Copy, Debug, PartialEq, Eq, Structural)]
pub enum LogBound {
    /// The decimal logarithm of the number.
    Log10(Binary32),
    /// The decimal logarithm of the number, less [`INF_RANGE_MAGNITUDE_BITS`].
    DecadesBelow(Binary32),
    /// The decimal logarithm of the number, plus [`INF_RANGE_MAGNITUDE_BITS`].
    DecadesAbove(Binary32),
    /// [`INF_RANGE_MAGNITUDE_BITS`] itself.
    Decades,
}

/// A range in logarithmic space.
#[derive(Clone, Copy, Debug, PartialEq, Eq, Structural)]
pub struct LogSpan {
    pub lower: LogBound,
    pub upper: LogBound,
}

/// How many powers of ten one side of zero takes up.
#[derive(Clone, Copy, Debug, PartialEq, Eq, Structural)]
pub enum Magnitude {
    /// [`INF_RANGE_MAGNITUDE_BITS`], for an infinite bound.
    Decades,
    /// The absolute value of the decimal logarithm of the number.
    AbsLog10(Binary32),
}

/// Where zero lies on a knob whose logarithmic range reaches across it: at
/// position `below / (below + above)`.
#[derive(Clone, Copy, Debug, PartialEq, Eq, Structural)]
pub struct ZeroCutoff {
    /// The share of the negative side.
    pub below: Magnitude,
    /// The share of the positive side.
    pub above: Magnitude,
}

/// The part of a range that reaches across zero on one side of it.
#[derive(Clone, Copy, Debug, PartialEq, Eq, Structural)]
pub enum Side {
    /// From the lower bound up to zero; it fills the positions from zero to
    /// the cutoff.
    Negative(ValueRange),
    /// From zero up to the upper bound; it fills the positions from the
    /// cutoff to one.
    Positive(ValueRange),
}

/// What a mapping comes to. Read for the way from value to position
/// (`p` of a value `v`) and for the way back (`v` of a position `p`).
#[derive(Clone, Copy, Debug, PartialEq, Eq, Structural)]
pub enum Step {
    /// The result.
    Done(Binary32),
    /// Map over the given range, which is the same stretch run through the
    /// other way, with the position counted from the other end: `p` is one
    /// minus the `p` of `v` there; `v` is the `v` of one minus `p` there.
    Reflect(ValueRange),
    /// Map over the given range, which is the mirror image at zero, with the
    /// value's sign turned: `p` is the `p` of minus `v` there; `v` is minus
    /// the `v` of `p` there.
    Negate(ValueRange),
    /// Interpolate between the logarithms: `p` is where the logarithm of `v`
    /// lies in the span; `v` is ten to the power found at `p` in the span.
    LogSpace(LogSpan),
    /// The range reaches across zero: map over the side of zero that holds
    /// what is mapped, and fit that side into its share of the positions.
    /// For the way from value to position [`value_side`] picks the side by
    /// the value's sign; for the way back the cutoff is found first, and
    /// [`straddle_side`] picks the side by where the position lies to it.
    Straddle(ZeroCutoff),
    /// Interpolate between the bounds.
    Linear,
}

/// The logarithmic span of a range from `min` up to `max`, neither negative.
///
/// A zero bound has no logarithm and an infinite one no finite logarithm, so
/// where the other bound leaves room the magnitudes of `spec` stand in for
/// them; where it does not, or both are missing, a span of ten powers of ten
/// is laid out from the bound that is there.
pub open spec fn log_span(min: Binary32, max: Binary32, spec: KnobSpec) -> LogSpan {
    let from_zero = min@.is_zero();
    let to_infinity = max@ == (Number::Infinite { negative: false });
    if from_zero && to_infinity {
        LogSpan { lower: LogBound::Log10(spec.smallest_finite), upper: LogBound::Decades }
    } else if from_zero {
        if spec.smallest_finite@.lt(max@) {
            LogSpan { lower: LogBound::Log10(spec.smallest_finite), upper: LogBound::Log10(max) }
        } else {
            LogSpan { lower: LogBound::DecadesBelow(max), upper: LogBound::Log10(max) }
        }
    } else if to_infinity {
        if min@.lt(spec.largest_finite@) {
            LogSpan { lower: LogBound::Log10(min), upper: LogBound::Log10(spec.largest_finite) }
        } else {
            LogSpan { lower: LogBound::Log10(min), upper: LogBound::DecadesAbove(min) }
        }
    } else {
        LogSpan { lower: LogBound::Log10(min), upper: LogBound::Log10(max) }
    }
}

/// The shares of the two sides of zero in a range from a negative `min` to a
/// positive `max`: for each side the size of its bound's logarithm, and ten
/// powers of ten for an infinite bound.
pub open spec fn zero_cutoff(min: Binary32, max: Binary32) -> ZeroCutoff {
    ZeroCutoff {
        below: if min@ == (Number::Infinite { negative: true }) {
            Magnitude::Decades
        } else {
            Magnitude::AbsLog10(min.absolute_value())
        },
        above: if max@ == (Number::Infinite { negative: false }) {
            Magnitude::Decades
        } else {
            Magnitude::AbsLog10(max)
        },
    }
}

/// The step for a rising range, once the ends have been dealt with.
pub open spec fn interior_step(range: ValueRange, spec: KnobSpec) -> Step {
    let zero = Number::Finite(0);
    if !spec.logarithmic {
        Step::Linear
    } else if range.max@.le(zero) {
        Step::Negate(range.negated())
    } else if zero.le(range.min@) {
        Step::LogSpace(log_span(range.min, range.max, spec))
    } else {
        Step::Straddle(zero_cutoff(range.min, range.max))
    }
}

/// The position of `value` in `range`. The cases, in the order in which
/// they are tried:
///
/// 1. a NaN bound gives a NaN;
/// 2. a range that is a single point shows every value at one half;
/// 3. a range that runs downwards is reflected;
/// 4. a value at or below the lower bound is at zero, one at or above the
///    upper bound at one;
/// 5. what is left lies strictly inside a rising range (or is a NaN), and
///    goes by [`interior_step`].
pub open spec fn position_step(value: Binary32, range: ValueRange, spec: KnobSpec) -> Step {
    if range.has_nan() {
        Step::Done(Binary32 { bits: NAN_BITS })
    } else if range.is_degenerate() {
        Step::Done(Binary32 { bits: HALF_BITS })
    } else if range.is_inverted() {
        Step::Reflect(range.swapped())
    } else if value@.le(range.min@) {
        Step::Done(Binary32 { bits: ZERO_BITS })
    } else if value@.ge(range.max@) {
        Step::Done(Binary32 { bits: ONE_BITS })
    } else {
        interior_step(range, spec)
    }
}

/// The value at `position` in `range`. The cases, in the order in which
/// they are tried:
///
/// 1. a NaN bound gives a NaN;
/// 2. a range that is a single point has that value at every position;
/// 3. a range that runs downwards is reflected;
/// 4. a position at or below zero holds the lower bound, one at or above one
///    the upper bound;
/// 5. what is left lies strictly between zero and one (or is a NaN), and
///    goes by [`interior_step`].
pub open spec fn value_step(position: Binary32, range: ValueRange, spec: KnobSpec) -> Step {
    if range.has_nan() {
        Step::Done(Binary32 { bits: NAN_BITS })
    } else if range.is_degenerate() {
        Step::Done(range.min)
    } else if range.is_inverted() {
        Step::Reflect(range.swapped())
    } else if position@.le(Number::Finite(0)) {
        Step::Done(range.min)
    } else if position@.ge((Binary32 { bits: ONE_BITS })@) {
        Step::Done(range.max)
    } else {
        interior_step(range, spec)
    }
}

/// The side of zero that holds `position` when zero lies at position
/// `cutoff`: the negative one where the position is below the cutoff, else
/// the positive one.
pub open spec fn side_of(position: Binary32, cutoff: Binary32, range: ValueRange) -> Side {
    if position@.lt(cutoff@) {
        Side::Negative(negative_side(range))
    } else {
        Side::Positive(positive_side(range))
    }
}

/// The side of zero that holds `value`: the negative one where the value is
/// below zero, else the positive one. Zero itself, of either sign, starts the
/// positive side.
pub open spec fn side_of_value(value: Binary32, range: ValueRange) -> Side {
    if value@.lt(Number::Finite(0)) {
        Side::Negative(negative_side(range))
    } else {
        Side::Positive(positive_side(range))
    }
}

/// The range reaches across zero: its lower bound is below zero and its upper
/// bound above.
pub open spec fn straddles_zero(min: Binary32, max: Binary32) -> bool {
    min@.lt(Number::Finite(0)) && max@.gt(Number::Finite(0))
}

/// The part of `range` from its lower bound up to zero.
pub open spec fn negative_side(range: ValueRange) -> ValueRange {
    ValueRange { min: range.min, max: Binary32 { bits: ZERO_BITS } }
}

/// The part of `range` from zero up to its upper bound.
pub open spec fn positive_side(range: ValueRange) -> ValueRange {
    ValueRange { min: Binary32 { bits: ZERO_BITS }, max: range.max }
}

/// How many steps a range can take before one of them is final.
///
/// A range that runs downwards takes one step to be turned round. A rising
/// logarithmic range below zero takes two, to be mirrored and then turned
/// round; one that reaches across zero takes three, since its negative side
/// is such a range. Every other range is settled at once.
pub open spec fn depth(range: ValueRange, spec: KnobSpec) -> nat {
    let zero = Number::Finite(0);
    if range.has_nan() || range.is_degenerate() {
        0
    } else {
        let turn: nat = if range.is_inverted() { 1 } else { 0 };
        let rest: nat = if !spec.logarithmic {
            0
        } else if range.upper()@.le(zero) {
            2
        } else if zero.le(range.lower()@) {
            0
        } else {
            3
        };
        turn + rest
    }
}

/// Every range that `step` hands on for `range` is less deep than `range`.
pub open spec fn descends(step: Step, range: ValueRange, spec: KnobSpec) -> bool {
    match step {
        Step::Reflect(next) => depth(next, spec) < depth(range, spec),
        Step::Negate(next) => depth(next, spec) < depth(range, spec),
        Step::Straddle(_) => {
            &&& depth(negative_side(range), spec) < depth(range, spec)
            &&& depth(positive_side(range), spec) < depth(range, spec)
        },
        _ => true,
    }
}

/// The logarithmic span of the range from `min` up to `max`, of a
/// logarithmic knob.
pub fn range_log10(min: Binary32, max: Binary32, spec: &KnobSpec) -> (span: LogSpan)
    requires
        spec.logarithmic,
        min@.le(max@),
    ensures
        span == log_span(min, max, *spec),
{
    let from_zero = min.is_zero();
    let to_infinity = max.is_infinite() && !max.is_sign_negative();
    if from_zero && to_infinity {
        LogSpan { lower: LogBound::Log10(spec.smallest_finite), upper: LogBound::Decades }
    } else if from_zero {
        if spec.smallest_finite.lt(max) {
            LogSpan { lower: LogBound::Log10(spec.smallest_finite), upper: LogBound::Log10(max) }
        } else {
            LogSpan { lower: LogBound::DecadesBelow(max), upper: LogBound::Log10(max) }
        }
    } else if to_infinity {
        if min.lt(spec.largest_finite) {
            LogSpan { lower: LogBound::Log10(min), upper: LogBound::Log10(spec.largest_finite) }
        } else {
            LogSpan { lower: LogBound::Log10(min), upper: LogBound::DecadesAbove(min) }
        }
    } else {
        LogSpan { lower: LogBound::Log10(min), upper: LogBound::Log10(max) }
    }
}

/// The shares of the two sides of zero in the range from `min` to `max`,
/// which reaches across zero.
pub fn logarithmic_zero_cutoff(min: Binary32, max: Binary32) -> (cutoff: ZeroCutoff)
    requires
        straddles_zero(min, max),
    ensures
        cutoff == zero_cutoff(min, max),
{
    let below = if min.is_infinite() {
        Magnitude::Decades
    } else {
        Magnitude::AbsLog10(min.abs())
    };
    let above = if max.is_infinite() {
        Magnitude::Decades
    } else {
        Magnitude::AbsLog10(max)
    };
    ZeroCutoff { below, above }
}

/// The step for a rising range, once the ends have been dealt with.
fn inside(range: ValueRange, spec: &KnobSpec) -> (step: Step)
    requires
        range.is_rising(),
    ensures
        step == interior_step(range, *spec),
{
    let zero = Binary32::zero();
    if !spec.logarithmic {
        Step::Linear
    } else if range.max.le(zero) {
        Step::Negate(range.negate())
    } else if zero.le(range.min) {
        Step::LogSpace(range_log10(range.min, range.max, spec))
    } else {
        Step::Straddle(logarithmic_zero_cutoff(range.min, range.max))
    }
}

/// The position of `value` in `range`, as far as it can be decided.
pub fn normalised_from_value(value: Binary32, range: ValueRange, spec: &KnobSpec) -> (step: Step)
    ensures
        step == position_step(value, range, *spec),
{
    if range.contains_nan() {
        Step::Done(Binary32::nan())
    } else if range.degenerate() {
        Step::Done(Binary32::half())
    } else if range.inverted() {
        Step::Reflect(range.swap())
    } else if value.le(range.min) {
        Step::Done(Binary32::zero())
    } else if value.ge(range.max) {
        Step::Done(Binary32::one())
    } else {
        inside(range, spec)
    }
}

/// The value at `normalised` in `range`, as far as it can be decided.
pub fn value_from_normalised(normalised: Binary32, range: ValueRange, spec: &KnobSpec) -> (step: Step)
    ensures
        step == value_step(normalised, range, *spec),
{
    if range.contains_nan() {
        Step::Done(Binary32::nan())
    } else if range.degenerate() {
        Step::Done(range.min)
    } else if range.inverted() {
        Step::Reflect(range.swap())
    } else if normalised.le(Binary32::zero()) {
        Step::Done(range.min)
    } else if normalised.ge(Binary32::one()) {
        Step::Done(range.max)
    } else {
        inside(range, spec)
    }
}

/// The side of zero that holds `position` when zero lies at position
/// `cutoff`: for the way from position to value.
pub fn straddle_side(position: Binary32, cutoff: Binary32, range: ValueRange) -> (side: Side)
    ensures
        side == side_of(position, cutoff, range),
{
    if position.lt(cutoff) {
        Side::Negative(ValueRange { min: range.min, max: Binary32::zero() })
    } else {
        Side::Positive(ValueRange { min: Binary32::zero(), max: range.max })
    }
}

/// The side of zero that holds `value`: for the way from value to position.
/// A value below zero is shown within the negative side's share of the
/// positions, below the cutoff; every other value within the positive side's
/// share, from the cutoff upwards.
pub fn value_side(value: Binary32, range: ValueRange) -> (side: Side)
    ensures
        side == side_of_value(value, range),
{
    if value.lt(Binary32::zero()) {
        Side::Negative(ValueRange { min: range.min, max: Binary32::zero() })
    } else {
        Side::Positive(ValueRange { min: Binary32::zero(), max: range.max })
    }
}

/// Whether both magnitudes of `spec` are strictly positive.
pub fn magnitudes_positive(spec: &KnobSpec) -> (r: bool)
    ensures
        r == spec.well_formed(),
{
    spec.smallest_finite.gt(Binary32::zero()) && spec.largest_finite.gt(Binary32::zero())
}

/// The mappings come to an end: whatever range a step hands on is less deep
/// than the range it was asked about, and no range is deeper than four. So
/// a caller that follows the steps is through after five of them at most.
pub proof fn lemma_steps_descend(x: Binary32, range: ValueRange, spec: KnobSpec)
    ensures
        depth(range, spec) <= 4,
        descends(position_step(x, range, spec), range, spec),
        descends(value_step(x, range, spec), range, spec),
{
}

/// The ends of a rising range are the ends of the knob: the lower bound lies
/// at position zero and the upper bound at position one, and those positions
/// give the bounds back exactly.
pub proof fn lemma_bounds_map_to_ends(range: ValueRange, spec: KnobSpec)
    requires
        range.is_rising(),
    ensures
        position_step(range.min, range, spec) == Step::Done(Binary32 { bits: ZERO_BITS }),
        position_step(range.max, range, spec) == Step::Done(Binary32 { bits: ONE_BITS }),
        value_step(Binary32 { bits: ZERO_BITS }, range, spec) == Step::Done(range.min),
        value_step(Binary32 { bits: ONE_BITS }, range, spec) == Step::Done(range.max),
{
    lemma_named_numbers();
}

/// A range that is a single point shows every value at one half, and has its
/// one value at every position.
pub proof fn lemma_degenerate_range(x: Binary32, range: ValueRange, spec: KnobSpec)
    requires
        range.is_degenerate(),
    ensures
        position_step(x, range, spec) == Step::Done(Binary32 { bits: HALF_BITS }),
        value_step(x, range, spec) == Step::Done(range.min),
{
}

/// On a rising range the ends are kept in order: once a value is shown at
/// position one, so is every value from there upwards; and where a value is
/// shown at position zero, so is every value from there downwards.
pub proof fn lemma_ends_keep_order(low: Binary32, high: Binary32, range: ValueRange, spec: KnobSpec)
    requires
        range.is_rising(),
        low@.le(high@),
    ensures
        position_step(low, range, spec) == Step::Done(Binary32 { bits: ONE_BITS })
            ==> position_step(high, range, spec) == Step::Done(Binary32 { bits: ONE_BITS }),
        position_step(high, range, spec) == Step::Done(Binary32 { bits: ZERO_BITS })
            ==> position_step(low, range, spec) == Step::Done(Binary32 { bits: ZERO_BITS }),
{
}

/// On a range that reaches across zero, a value strictly inside lies within
/// the side that is picked for it: a negative value strictly inside the
/// negative side, where it is mapped by logarithms, and any other value on
/// the positive side, at its start if it is zero and strictly inside
/// otherwise. So no positive value is ever shown below the cutoff.
pub proof fn lemma_value_lies_on_its_side(value: Binary32, range: ValueRange, spec: KnobSpec)
    requires
        spec.logarithmic,
        straddles_zero(range.min, range.max),
        range.min@.lt(value@),
        value@.lt(range.max@),
    ensures
        position_step(value, range, spec) == Step::Straddle(zero_cutoff(range.min, range.max)),
        value@.lt(Number::Finite(0)) ==> {
            &&& side_of_value(value, range) == Side::Negative(negative_side(range))
            &&& position_step(value, negative_side(range), spec) == Step::Negate(
                negative_side(range).negated(),
            )
        },
        value@.is_zero() ==> {
            &&& side_of_value(value, range) == Side::Positive(positive_side(range))
            &&& position_step(value, positive_side(range), spec) == Step::Done(
                Binary32 { bits: ZERO_BITS },
            )
        },
        value@.gt(Number::Finite(0)) ==> {
            &&& side_of_value(value, range) == Side::Positive(positive_side(range))
            &&& position_step(value, positive_side(range), spec) == Step::LogSpace(
                log_span(Binary32 { bits: ZERO_BITS }, range.max, spec),
            )
        },
{
}

} // verus!
