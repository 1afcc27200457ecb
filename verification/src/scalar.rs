//! Signed fixed-point numbers with six decimal places.
//!
//! A `Scalar` counts millionths. Addition, subtraction and negation are exact
//! until they reach the ends of the 64-bit range, where they saturate;
//! multiplication rounds toward zero and saturates in the same way.

use vstd::prelude::*;

verus! {

/// How many units of a `Scalar` make up one whole.
pub const ONE: i64 = 1_000_000;

/// Two wholes, in units of a `Scalar`.
pub const TWO: i64 = 2_000_000;

/// A signed fixed-point number: `micro` millionths.
#[derive(Clone, Copy, Debug, PartialEq, Eq, Structural)]
pub struct Scalar {
    pub micro: i64,
}

impl View for Scalar {
    type V = int;

    open spec fn view(&self) -> int {
        self.micro as int
    }
}

/// `v` brought into the 64-bit range: values beyond an end become that end.
pub open spec fn saturate(v: int) -> int {
    if v < i64::MIN {
        i64::MIN as int
    } else if v > i64::MAX {
        i64::MAX as int
    } else {
        v
    }
}

/// The quotient of `n` by a positive `d`, rounded toward zero.
pub open spec fn div_toward_zero(n: int, d: int) -> int {
    if n >= 0 {
        n / d
    } else {
        -((-n) / d)
    }
}

/// The 128-bit value `v` saturated into 64 bits.
fn saturate_wide(v: i128) -> (r: i64)
    ensures
        r as int == saturate(v as int),
{
    if v < i64::MIN as i128 {
        i64::MIN
    } else if v > i64::MAX as i128 {
        i64::MAX
    } else {
        v as i64
    }
}

impl Scalar {
    /// The scalar nearest to `v` millionths.
    pub open spec fn of(v: int) -> Scalar {
        Scalar { micro: saturate(v) as i64 }
    }

    pub open spec fn spec_plus(self, other: Scalar) -> Scalar {
        Scalar::of(self@ + other@)
    }

    pub open spec fn spec_minus(self, other: Scalar) -> Scalar {
        Scalar::of(self@ - other@)
    }

    pub open spec fn spec_negated(self) -> Scalar {
        Scalar::of(-self@)
    }

    /// The product, rounded toward zero to a whole number of millionths.
    pub open spec fn spec_times(self, other: Scalar) -> Scalar {
        Scalar::of(div_toward_zero(self@ * other@, ONE as int))
    }

    pub open spec fn spec_magnitude(self) -> Scalar {
        if self@ < 0 {
            self.spec_negated()
        } else {
            self
        }
    }

    /// The largest whole number that is not above the scalar.
    pub open spec fn spec_floor(self) -> int {
        self@ / (ONE as int)
    }

    /// How many whole units the scalar holds as a count: rounded toward
    /// zero, nothing for a negative scalar, and never more than a `usize`
    /// can hold.
    pub open spec fn spec_whole_part(self) -> nat {
        if self@ < 0 {
            0
        } else if self@ / (ONE as int) > usize::MAX {
            usize::MAX as nat
        } else {
            (self@ / (ONE as int)) as nat
        }
    }

    /// The scalar that stands for the whole number `n`.
    pub open spec fn spec_from_whole(n: int) -> Scalar {
        Scalar::of(n * ONE)
    }

    pub fn from_micro(micro: i64) -> (r: Scalar)
        ensures
            r == (Scalar { micro }),
    {
        Scalar { micro }
    }

    pub fn zero() -> (r: Scalar)
        ensures
            r == (Scalar { micro: 0 }),
    {
        Scalar { micro: 0 }
    }

    pub fn one() -> (r: Scalar)
        ensures
            r == (Scalar { micro: ONE }),
    {
        Scalar { micro: ONE }
    }

    /// The scalar for `n` whole units, saturated.
    pub fn from_whole(n: usize) -> (r: Scalar)
        ensures
            r == Scalar::spec_from_whole(n as int),
    {
        let wide: u128 = n as u128;
        if wide > 9_223_372_036_854 {
            Scalar { micro: i64::MAX }
        } else {
            Scalar { micro: (wide as i64) * ONE }
        }
    }

    pub fn plus(self, other: Scalar) -> (r: Scalar)
        ensures
            r == self.spec_plus(other),
    {
        Scalar { micro: saturate_wide(self.micro as i128 + other.micro as i128) }
    }

    pub fn minus(self, other: Scalar) -> (r: Scalar)
        ensures
            r == self.spec_minus(other),
    {
        Scalar { micro: saturate_wide(self.micro as i128 - other.micro as i128) }
    }

    pub fn negated(self) -> (r: Scalar)
        ensures
            r == self.spec_negated(),
    {
        Scalar { micro: saturate_wide(-(self.micro as i128)) }
    }

    pub fn times(self, other: Scalar) -> (r: Scalar)
        ensures
            r == self.spec_times(other),
    {
        let a: i128 = self.micro as i128;
        let b: i128 = other.micro as i128;
        assert(-0x4000_0000_0000_0000_0000_0000_0000_0000 <= a * b
            <= 0x4000_0000_0000_0000_0000_0000_0000_0000) by (nonlinear_arith)
            requires
                -0x8000_0000_0000_0000 <= a <= 0x8000_0000_0000_0000,
                -0x8000_0000_0000_0000 <= b <= 0x8000_0000_0000_0000,
        ;
        let product: i128 = a * b;
        let quotient: i128 = product / (ONE as i128);
        Scalar { micro: saturate_wide(quotient) }
    }

    pub fn magnitude(self) -> (r: Scalar)
        ensures
            r == self.spec_magnitude(),
    {
        if self.micro < 0 {
            self.negated()
        } else {
            self
        }
    }

    pub fn floor(self) -> (r: i64)
        ensures
            r == self.spec_floor(),
    {
        let q: i64 = self.micro / ONE;
        let rem: i64 = self.micro % ONE;
        if rem < 0 {
            q - 1
        } else {
            q
        }
    }

    pub fn whole_part(self) -> (r: usize)
        ensures
            r == self.spec_whole_part(),
    {
        if self.micro < 0 {
            0
        } else {
            let q: u128 = (self.micro / ONE) as u128;
            if q > usize::MAX as u128 {
                usize::MAX
            } else {
                q as usize
            }
        }
    }

    pub fn is_below(self, other: Scalar) -> (r: bool)
        ensures
            r == (self@ < other@),
    {
        self.micro < other.micro
    }

    pub fn is_at_most(self, other: Scalar) -> (r: bool)
        ensures
            r == (self@ <= other@),
    {
        self.micro <= other.micro
    }

    pub fn is_above(self, other: Scalar) -> (r: bool)
        ensures
            r == (self@ > other@),
    {
        self.micro > other.micro
    }

    pub fn is_exactly(self, other: Scalar) -> (r: bool)
        ensures
            r == (self == other),
    {
        self.micro == other.micro
    }
}

} // verus!
