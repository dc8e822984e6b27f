//! Double-precision numbers by their IEEE-754 binary64 encoding.
//!
//! Everything the simplifier has to decide about a number (its sign, whether
//! it is zero or a NaN, how it compares with another number) is a statement
//! about the 64 bits of its encoding, and is proved here on those bits.

use vstd::prelude::*;

verus! {

/// The topmost bit of an encoding: set for numbers with a minus sign.
pub const SIGN_BIT: u64 = 0x8000_0000_0000_0000;

/// The encoding of positive infinity. Larger magnitudes encode NaNs.
pub const INFINITY_BITS: u64 = 0x7ff0_0000_0000_0000;

/// The encoding of `0.0`.
pub const ZERO_BITS: u64 = 0;

/// The encoding of `0.5`.
pub const HALF_BITS: u64 = 0x3fe0_0000_0000_0000;

/// The encoding of `1.0`.
pub const ONE_BITS: u64 = 0x3ff0_0000_0000_0000;

/// The encoding of `2.0`.
pub const TWO_BITS: u64 = 0x4000_0000_0000_0000;

/// The encoding of `100.0`.
pub const HUNDRED_BITS: u64 = 0x4059_0000_0000_0000;

/// A double-precision number, held by its encoding.
#[derive(Clone, Copy, Debug)]
pub struct Scalar {
    pub bits: u64,
}

impl Scalar {
    /// The encoding without its sign bit.
    pub open spec fn magnitude(self) -> u64 {
        if self.bits >= SIGN_BIT {
            (self.bits - SIGN_BIT) as u64
        } else {
            self.bits
        }
    }

    /// The sign bit is set. This holds of `-0.0` and of some NaNs too.
    pub open spec fn negative(self) -> bool {
        self.bits >= SIGN_BIT
    }

    /// Not a number.
    pub open spec fn nan(self) -> bool {
        self.magnitude() > INFINITY_BITS
    }

    /// `0.0` or `-0.0`.
    pub open spec fn zero(self) -> bool {
        self.magnitude() == 0
    }

    /// Where a number that is no NaN stands among the others: encodings of
    /// numbers without a sign grow with the number, those with a sign fall,
    /// and both zeros share rank 0.
    pub open spec fn rank(self) -> int {
        if self.negative() {
            -(self.magnitude() as int)
        } else {
            self.magnitude() as int
        }
    }

    /// The IEEE-754 comparison `self < other`: false whenever a NaN is involved.
    pub open spec fn less(self, other: Scalar) -> bool {
        !self.nan() && !other.nan() && self.rank() < other.rank()
    }

    /// The IEEE-754 comparison `self <= other`.
    pub open spec fn at_most(self, other: Scalar) -> bool {
        !self.nan() && !other.nan() && self.rank() <= other.rank()
    }

    /// The IEEE-754 comparison `self == other`: no NaN equals anything, and
    /// the two zeros are equal.
    pub open spec fn same(self, other: Scalar) -> bool {
        !self.nan() && !other.nan() && self.rank() == other.rank()
    }

    /// Strictly greater than zero.
    pub open spec fn positive(self) -> bool {
        !self.nan() && !self.negative() && !self.zero()
    }

    /// The number with its sign bit cleared.
    pub open spec fn spec_abs(self) -> Scalar {
        Scalar { bits: self.magnitude() }
    }

    /// The number `0.0`.
    pub open spec fn spec_zero() -> Scalar {
        Scalar { bits: ZERO_BITS }
    }

    pub fn from_bits(bits: u64) -> (s: Scalar)
        ensures
            s.bits == bits,
    {
        Scalar { bits }
    }

    pub fn to_bits(self) -> (bits: u64)
        ensures
            bits == self.bits,
    {
        self.bits
    }

    pub fn zero_value() -> (s: Scalar)
        ensures
            s == Scalar::spec_zero(),
            s.zero(),
            !s.negative(),
    {
        Scalar { bits: ZERO_BITS }
    }

    fn magnitude_bits(self) -> (m: u64)
        ensures
            m == self.magnitude(),
    {
        if self.bits >= SIGN_BIT {
            self.bits - SIGN_BIT
        } else {
            self.bits
        }
    }

    pub fn is_sign_negative(self) -> (b: bool)
        ensures
            b == self.negative(),
    {
        self.bits >= SIGN_BIT
    }

    pub fn is_nan(self) -> (b: bool)
        ensures
            b == self.nan(),
    {
        self.magnitude_bits() > INFINITY_BITS
    }

    pub fn is_zero(self) -> (b: bool)
        ensures
            b == self.zero(),
    {
        self.magnitude_bits() == 0
    }

    pub fn is_positive(self) -> (b: bool)
        ensures
            b == self.positive(),
            b == Scalar::spec_zero().less(self),
    {
        let m = self.magnitude_bits();
        m <= INFINITY_BITS && self.bits < SIGN_BIT && m != 0
    }

    /// The absolute value: the same number without its sign.
    pub fn abs(self) -> (a: Scalar)
        ensures
            a == self.spec_abs(),
            !a.negative(),
            a.magnitude() == self.magnitude(),
    {
        Scalar { bits: self.magnitude_bits() }
    }

    /// `self < other`, as IEEE-754 orders doubles.
    pub fn lt(self, other: Scalar) -> (b: bool)
        ensures
            b == self.less(other),
    {
        if self.is_nan() || other.is_nan() {
            return false;
        }
        let a = self.magnitude_bits();
        let c = other.magnitude_bits();
        if self.is_sign_negative() {
            if other.is_sign_negative() {
                a > c
            } else {
                a > 0 || c > 0
            }
        } else {
            if other.is_sign_negative() {
                false
            } else {
                a < c
            }
        }
    }

    /// `self <= other`, as IEEE-754 orders doubles.
    pub fn le(self, other: Scalar) -> (b: bool)
        ensures
            b == self.at_most(other),
    {
        if self.is_nan() || other.is_nan() {
            return false;
        }
        let a = self.magnitude_bits();
        let c = other.magnitude_bits();
        if self.is_sign_negative() {
            if other.is_sign_negative() {
                a >= c
            } else {
                true
            }
        } else {
            if other.is_sign_negative() {
                a == 0 && c == 0
            } else {
                a <= c
            }
        }
    }

    /// `self == other`, as IEEE-754 compares doubles.
    pub fn same_as(self, other: Scalar) -> (b: bool)
        ensures
            b == self.same(other),
    {
        if self.is_nan() || other.is_nan() {
            return false;
        }
        self.bits == other.bits || (self.magnitude_bits() == 0 && other.magnitude_bits() == 0)
    }
}

impl PartialEq for Scalar {
    fn eq(&self, other: &Scalar) -> (b: bool) {
        self.same_as(*other)
    }
}

impl vstd::std_specs::cmp::PartialEqSpecImpl for Scalar {
    open spec fn obeys_eq_spec() -> bool {
        true
    }

    open spec fn eq_spec(&self, other: &Scalar) -> bool {
        self.same(*other)
    }
}

/// The order of doubles is transitive: what is below a number that is below a
/// third is below the third.
pub proof fn lemma_less_transitive(a: Scalar, b: Scalar, c: Scalar)
    requires
        a.less(b),
        b.less(c),
    ensures
        a.less(c),
{
}

/// `<=` is `<` or `==`, and `<` excludes `==`.
pub proof fn lemma_at_most_splits(a: Scalar, b: Scalar)
    ensures
        a.at_most(b) <==> (a.less(b) || a.same(b)),
        !(a.less(b) && a.same(b)),
{
}

/// Taking the absolute value twice changes nothing more, and an absolute
/// value is never below zero.
pub proof fn lemma_abs_idempotent(a: Scalar)
    ensures
        a.spec_abs().spec_abs() == a.spec_abs(),
        !a.nan() ==> Scalar::spec_zero().at_most(a.spec_abs()),
        a.nan() <==> a.spec_abs().nan(),
{
}

} // verus!
