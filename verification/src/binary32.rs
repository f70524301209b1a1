//! IEEE 754 single-precision numbers, held as their bit patterns.
//!
//! Everything the knob decides, it decides by comparing numbers. This module
//! gives those comparisons a meaning: each bit pattern denotes a [`Number`],
//! and every predicate here is proved to answer as the denoted numbers do.

use vstd::arithmetic::mul::{lemma_mul_inequality, lemma_mul_strict_inequality};
use vstd::arithmetic::power2::{
    lemma2_to64, lemma_pow2_adds, lemma_pow2_pos, lemma_pow2_strictly_increases, lemma_pow2_unfold, pow2,
};
use vstd::prelude::*;

verus! {

/// The sign bit of a pattern.
pub const SIGN_BIT: u32 = 0x8000_0000;

/// Every bit of a pattern but its sign.
pub const MAGNITUDE_MASK: u32 = 0x7fff_ffff;

/// The magnitude of both infinities; every larger magnitude is a NaN.
pub const INFINITY_BITS: u32 = 0x7f80_0000;

/// Positive zero.
pub const ZERO_BITS: u32 = 0x0000_0000;

/// One half.
pub const HALF_BITS: u32 = 0x3f00_0000;

/// One.
pub const ONE_BITS: u32 = 0x3f80_0000;

/// The quiet NaN that arithmetic produces by default.
pub const NAN_BITS: u32 = 0x7fc0_0000;

/// What a bit pattern denotes.
///
/// A finite number is given exactly, as a whole multiple of the smallest
/// positive subnormal, two to the power of minus 149: every finite
/// single-precision number is such a multiple. Both zeros denote `Finite(0)`.
pub enum Number {
    Nan,
    Finite(int),
    Infinite { negative: bool },
}

impl Number {
    /// IEEE `<`: false whenever a NaN takes part.
    pub open spec fn lt(self, other: Number) -> bool {
        match (self, other) {
            (Number::Finite(a), Number::Finite(b)) => a < b,
            (Number::Infinite { negative: true }, Number::Finite(_)) => true,
            (Number::Infinite { negative: true }, Number::Infinite { negative: false }) => true,
            (Number::Finite(_), Number::Infinite { negative: false }) => true,
            _ => false,
        }
    }

    /// IEEE `==`: false whenever a NaN takes part, true of the two zeros.
    pub open spec fn num_eq(self, other: Number) -> bool {
        self !is Nan && self == other
    }

    /// IEEE `<=`.
    pub open spec fn le(self, other: Number) -> bool {
        self.lt(other) || self.num_eq(other)
    }

    /// IEEE `>`.
    pub open spec fn gt(self, other: Number) -> bool {
        other.lt(self)
    }

    /// IEEE `>=`.
    pub open spec fn ge(self, other: Number) -> bool {
        other.le(self)
    }

    /// The number with its sign turned.
    pub open spec fn negated(self) -> Number {
        match self {
            Number::Nan => Number::Nan,
            Number::Finite(a) => Number::Finite(-a),
            Number::Infinite { negative } => Number::Infinite { negative: !negative },
        }
    }

    /// The number without its sign.
    pub open spec fn absolute(self) -> Number {
        match self {
            Number::Nan => Number::Nan,
            Number::Finite(a) => Number::Finite(if a < 0 { -a } else { a }),
            Number::Infinite { .. } => Number::Infinite { negative: false },
        }
    }

    /// Zero, of either sign.
    pub open spec fn is_zero(self) -> bool {
        self == Number::Finite(0)
    }
}

/// The number that a magnitude (a pattern without its sign bit) denotes when
/// it is finite, in units of two to the power of minus 149.
///
/// With a zero exponent field the fraction counts units directly
/// (subnormals); otherwise the fraction gains its hidden leading bit and
/// doubles with every step of the exponent.
pub open spec fn magnitude_units(magnitude: u32) -> nat {
    let exponent = (magnitude / 0x80_0000) as nat;
    let fraction = (magnitude % 0x80_0000) as nat;
    if exponent == 0 {
        fraction
    } else {
        (0x80_0000 + fraction) * pow2((exponent - 1) as nat)
    }
}

/// A single-precision number as its 32 bits: sign, eight bits of exponent,
/// twenty-three bits of fraction.
///
/// The derived `==` compares patterns, so it tells the two zeros apart and
/// finds a NaN equal to itself. To compare as numbers use
/// [`Binary32::num_eq`] and its companions.
#[derive(Clone, Copy, Debug, PartialEq, Eq, Structural)]
pub struct Binary32 {
    pub bits: u32,
}

impl View for Binary32 {
    type V = Number;

    open spec fn view(&self) -> Number {
        let magnitude = self.magnitude();
        if magnitude > INFINITY_BITS {
            Number::Nan
        } else if magnitude == INFINITY_BITS {
            Number::Infinite { negative: self.sign_negative() }
        } else if self.sign_negative() {
            Number::Finite(-(magnitude_units(magnitude) as int))
        } else {
            Number::Finite(magnitude_units(magnitude) as int)
        }
    }
}

/// Larger finite magnitudes denote larger numbers.
pub proof fn lemma_magnitude_units_increase(a: u32, b: u32)
    requires
        a < b < INFINITY_BITS,
    ensures
        magnitude_units(a) < magnitude_units(b),
{
    let ea = (a / 0x80_0000) as nat;
    let fa = (a % 0x80_0000) as nat;
    let eb = (b / 0x80_0000) as nat;
    let fb = (b % 0x80_0000) as nat;
    assert(ea <= eb);
    if ea == eb {
        assert(fa < fb);
        if ea != 0 {
            let p = pow2((ea - 1) as nat);
            lemma_pow2_pos((ea - 1) as nat);
            lemma_mul_strict_inequality((0x80_0000 + fa) as int, (0x80_0000 + fb) as int, p as int);
        }
    } else {
        let q = pow2((eb - 1) as nat);
        lemma_pow2_pos((eb - 1) as nat);
        // the larger binade starts at or above 0x80_0000 * q
        lemma_mul_inequality(0x80_0000, (0x80_0000 + fb) as int, q as int);
        if ea == 0 {
            lemma_mul_inequality(1, q as int, 0x80_0000);
            assert(q * 0x80_0000 == 0x80_0000 * q) by (nonlinear_arith);
        } else {
            let p = pow2((ea - 1) as nat);
            lemma_pow2_pos((ea - 1) as nat);
            lemma_pow2_unfold(ea);
            assert(pow2(ea) == 2 * p);
            if ea < eb - 1 {
                lemma_pow2_strictly_increases(ea, (eb - 1) as nat);
            }
            assert(pow2(ea) <= q);
            // the smaller binade ends below 0x100_0000 * p == 0x80_0000 * pow2(ea)
            lemma_mul_strict_inequality((0x80_0000 + fa) as int, 0x100_0000, p as int);
            assert(0x100_0000 * p == 0x80_0000 * (2 * p)) by (nonlinear_arith);
            lemma_mul_inequality(pow2(ea) as int, q as int, 0x80_0000);
            assert(pow2(ea) * 0x80_0000 == 0x80_0000 * pow2(ea)) by (nonlinear_arith);
            assert(q * 0x80_0000 == 0x80_0000 * q) by (nonlinear_arith);
        }
    }
}

impl Binary32 {
    /// Whether the sign bit is set.
    pub open spec fn sign_negative(self) -> bool {
        self.bits >= SIGN_BIT
    }

    /// The pattern without its sign bit.
    pub open spec fn magnitude(self) -> u32 {
        if self.bits >= SIGN_BIT {
            (self.bits - SIGN_BIT) as u32
        } else {
            self.bits
        }
    }

    /// The place of a number that is no NaN among all such numbers: patterns
    /// of larger keys denote larger numbers, and the two zeros share key 0.
    pub open spec fn order_key(self) -> int {
        if self.sign_negative() {
            -(self.magnitude() as int)
        } else {
            self.magnitude() as int
        }
    }

    /// The pattern with its sign bit toggled.
    pub open spec fn negation(self) -> Binary32 {
        Binary32 {
            bits: if self.bits >= SIGN_BIT {
                (self.bits - SIGN_BIT) as u32
            } else {
                (self.bits + SIGN_BIT) as u32
            },
        }
    }

    /// The pattern with its sign bit cleared.
    pub open spec fn absolute_value(self) -> Binary32 {
        Binary32 { bits: self.magnitude() }
    }

    /// What [`Binary32::clamp`] returns.
    pub open spec fn clamped(self, min: Binary32, max: Binary32) -> Binary32 {
        if self@.lt(min@) {
            min
        } else if self@.gt(max@) {
            max
        } else {
            self
        }
    }

    /// Keys order patterns exactly as IEEE orders the numbers they denote.
    pub proof fn lemma_order_key(self, other: Binary32)
        requires
            self@ !is Nan,
            other@ !is Nan,
        ensures
            self.order_key() < other.order_key() <==> self@.lt(other@),
            self.order_key() == other.order_key() <==> self@.num_eq(other@),
            self.order_key() <= other.order_key() <==> self@.le(other@),
    {
        let a = self.magnitude();
        let b = other.magnitude();
        if a < b && b < INFINITY_BITS {
            lemma_magnitude_units_increase(a, b);
        }
        if b < a && a < INFINITY_BITS {
            lemma_magnitude_units_increase(b, a);
        }
        if 0 < a && a < INFINITY_BITS {
            lemma_magnitude_units_increase(0, a);
        }
        if 0 < b && b < INFINITY_BITS {
            lemma_magnitude_units_increase(0, b);
        }
        assert(magnitude_units(0) == 0);
    }

    /// The number with the given pattern.
    pub fn from_bits(bits: u32) -> (r: Binary32)
        ensures
            r.bits == bits,
    {
        Binary32 { bits }
    }

    /// The pattern of the number.
    pub fn to_bits(self) -> (r: u32)
        ensures
            r == self.bits,
    {
        self.bits
    }

    /// Positive zero.
    pub fn zero() -> (r: Binary32)
        ensures
            r.bits == ZERO_BITS,
            r@ == Number::Finite(0),
    {
        Binary32 { bits: ZERO_BITS }
    }

    /// One half, which is two to the power of 148 units.
    pub fn half() -> (r: Binary32)
        ensures
            r.bits == HALF_BITS,
            r@ == Number::Finite(pow2(148) as int),
    {
        proof {
            lemma_named_numbers();
        }
        Binary32 { bits: HALF_BITS }
    }

    /// One, which is two to the power of 149 units.
    pub fn one() -> (r: Binary32)
        ensures
            r.bits == ONE_BITS,
            r@ == Number::Finite(pow2(149) as int),
    {
        proof {
            lemma_named_numbers();
        }
        Binary32 { bits: ONE_BITS }
    }

    /// A NaN.
    pub fn nan() -> (r: Binary32)
        ensures
            r.bits == NAN_BITS,
            r@ is Nan,
    {
        Binary32 { bits: NAN_BITS }
    }

    /// Positive infinity.
    pub fn infinity() -> (r: Binary32)
        ensures
            r.bits == INFINITY_BITS,
            r@ == (Number::Infinite { negative: false }),
    {
        Binary32 { bits: INFINITY_BITS }
    }

    /// Negative infinity.
    pub fn neg_infinity() -> (r: Binary32)
        ensures
            r.bits == SIGN_BIT + INFINITY_BITS,
            r@ == (Number::Infinite { negative: true }),
    {
        Binary32 { bits: 0xff80_0000 }
    }

    /// Whether the number is a NaN.
    pub fn is_nan(self) -> (r: bool)
        ensures
            r == (self@ is Nan),
    {
        let magnitude = self.bits & MAGNITUDE_MASK;
        proof {
            lemma_magnitude_mask(self.bits);
        }
        magnitude > INFINITY_BITS
    }

    /// Whether the number is one of the two infinities.
    pub fn is_infinite(self) -> (r: bool)
        ensures
            r == (self@ is Infinite),
    {
        let magnitude = self.bits & MAGNITUDE_MASK;
        proof {
            lemma_magnitude_mask(self.bits);
        }
        magnitude == INFINITY_BITS
    }

    /// Whether the number is neither a NaN nor infinite.
    pub fn is_finite(self) -> (r: bool)
        ensures
            r == (self@ is Finite),
    {
        let magnitude = self.bits & MAGNITUDE_MASK;
        proof {
            lemma_magnitude_mask(self.bits);
        }
        magnitude < INFINITY_BITS
    }

    /// Whether the sign bit is set: true of negative zero and of a NaN that
    /// carries the bit, too.
    pub fn is_sign_negative(self) -> (r: bool)
        ensures
            r == self.sign_negative(),
    {
        self.bits >= SIGN_BIT
    }

    /// Whether the number is zero, of either sign.
    pub fn is_zero(self) -> (r: bool)
        ensures
            r == self@.is_zero(),
    {
        let magnitude = self.bits & MAGNITUDE_MASK;
        proof {
            lemma_magnitude_mask(self.bits);
            if 0 < self.magnitude() < INFINITY_BITS {
                lemma_magnitude_units_increase(0, self.magnitude());
            }
        }
        magnitude == 0
    }

    /// The number with its sign turned: only the sign bit changes, also in a
    /// zero, an infinity or a NaN.
    pub fn neg(self) -> (r: Binary32)
        ensures
            r == self.negation(),
            r@ == self@.negated(),
    {
        proof {
            lemma_sign_flip(self.bits);
        }
        Binary32 { bits: self.bits ^ SIGN_BIT }
    }

    /// The number without its sign: only the sign bit is cleared.
    pub fn abs(self) -> (r: Binary32)
        ensures
            r == self.absolute_value(),
            r@ == self@.absolute(),
    {
        proof {
            lemma_magnitude_mask(self.bits);
        }
        Binary32 { bits: self.bits & MAGNITUDE_MASK }
    }

    /// The number limited to `min..=max`: `min` where it is below, `max` where
    /// it is above, itself otherwise. A NaN stays a NaN.
    pub fn clamp(self, min: Binary32, max: Binary32) -> (r: Binary32)
        requires
            min@.le(max@),
        ensures
            r == self.clamped(min, max),
    {
        if self.lt(min) {
            min
        } else if self.gt(max) {
            max
        } else {
            self
        }
    }

    /// The order key of a number that is no NaN.
    fn key(self) -> (r: i64)
        ensures
            r == self.order_key(),
    {
        let magnitude = self.bits & MAGNITUDE_MASK;
        proof {
            lemma_magnitude_mask(self.bits);
        }
        if self.bits >= SIGN_BIT {
            -(magnitude as i64)
        } else {
            magnitude as i64
        }
    }

    /// IEEE `<`.
    pub fn lt(self, other: Binary32) -> (r: bool)
        ensures
            r == self@.lt(other@),
    {
        if self.is_nan() || other.is_nan() {
            return false;
        }
        proof {
            self.lemma_order_key(other);
        }
        self.key() < other.key()
    }

    /// IEEE `<=`.
    pub fn le(self, other: Binary32) -> (r: bool)
        ensures
            r == self@.le(other@),
    {
        if self.is_nan() || other.is_nan() {
            return false;
        }
        proof {
            self.lemma_order_key(other);
        }
        self.key() <= other.key()
    }

    /// IEEE `>`.
    pub fn gt(self, other: Binary32) -> (r: bool)
        ensures
            r == self@.gt(other@),
    {
        other.lt(self)
    }

    /// IEEE `>=`.
    pub fn ge(self, other: Binary32) -> (r: bool)
        ensures
            r == self@.ge(other@),
    {
        other.le(self)
    }

    /// IEEE `==`: the two zeros are equal, and a NaN equals nothing.
    pub fn num_eq(self, other: Binary32) -> (r: bool)
        ensures
            r == self@.num_eq(other@),
    {
        if self.is_nan() || other.is_nan() {
            return false;
        }
        proof {
            self.lemma_order_key(other);
        }
        self.key() == other.key()
    }

    /// IEEE `!=`, the denial of `==`: true whenever a NaN takes part.
    pub fn num_ne(self, other: Binary32) -> (r: bool)
        ensures
            r == !self@.num_eq(other@),
    {
        !self.num_eq(other)
    }
}

/// What the named patterns denote: zero, one half and one, in units of two
/// to the power of minus 149, and a NaN.
pub proof fn lemma_named_numbers()
    ensures
        (Binary32 { bits: ZERO_BITS })@ == Number::Finite(0),
        (Binary32 { bits: HALF_BITS })@ == Number::Finite(pow2(148) as int),
        (Binary32 { bits: ONE_BITS })@ == Number::Finite(pow2(149) as int),
        (Binary32 { bits: NAN_BITS })@ is Nan,
        0 < pow2(148) < pow2(149),
{
    lemma2_to64();
    lemma_pow2_adds(23, 125);
    lemma_pow2_adds(23, 126);
    lemma_pow2_pos(148);
    lemma_pow2_strictly_increases(148, 149);
    assert(HALF_BITS / 0x80_0000 == 126 && HALF_BITS % 0x80_0000 == 0);
    assert(ONE_BITS / 0x80_0000 == 127 && ONE_BITS % 0x80_0000 == 0);
}

/// Masking the sign bit away leaves the magnitude.
proof fn lemma_magnitude_mask(bits: u32)
    ensures
        bits & MAGNITUDE_MASK == (Binary32 { bits }).magnitude(),
{
    assert(bits & 0x7fff_ffff == if bits >= 0x8000_0000 {
        (bits - 0x8000_0000) as u32
    } else {
        bits
    }) by (bit_vector);
}

/// Toggling the sign bit moves a pattern to the other half of the patterns
/// and keeps its magnitude.
proof fn lemma_sign_flip(bits: u32)
    ensures
        (Binary32 { bits: bits ^ SIGN_BIT }) == (Binary32 { bits }).negation(),
{
    assert(bits ^ 0x8000_0000 == if bits >= 0x8000_0000 {
        (bits - 0x8000_0000) as u32
    } else {
        (bits + 0x8000_0000) as u32
    }) by (bit_vector);
}

} // verus!
