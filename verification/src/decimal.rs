//! Exact decimal numbers for money, share counts and percentages.
//!
//! A [`Decimal`] is a signed 96-bit mantissa together with a scale between 0
//! and 28; it stands for `mantissa / 10^scale`. Nothing here rounds through
//! binary floating point. Sums are computed by the `rust_decimal` crate.

use vstd::prelude::*;

verus! {

/// The largest scale a decimal can carry.
pub const MAX_SCALE: u32 = 28;

/// The largest magnitude a mantissa can have: `2^96 - 1`.
pub const MAX_MANTISSA: i128 = 79_228_162_514_264_337_593_543_950_335;

/// An exact decimal number: `mantissa / 10^scale`.
///
/// Every value satisfies [`Decimal::representable`] of its mantissa and scale.
/// Two values are equal when mantissa and scale are both equal, so `1.0` and
/// `1.00` are distinct values that stand for the same number.
#[derive(Debug, Clone, Copy, PartialEq, Eq)]
pub struct Decimal {
    mantissa: i128,
    scale: u32,
}

/// What `rust_decimal` returns for the sum of two decimals, each given as
/// mantissa and scale: the mantissa and scale of the sum, or `None` where the
/// sum overflows the 96 bits of a mantissa.
///
/// The addition aligns the two scales and, where the aligned sum does not
/// fit, gives up digits after the decimal point before it gives up; the
/// result is therefore named here, not computed.
pub uninterp spec fn decimal_sum(
    a_mantissa: i128,
    a_scale: u32,
    b_mantissa: i128,
    b_scale: u32,
) -> Option<(i128, u32)>;

impl Decimal {
    /// Whether a mantissa and a scale lie within what a decimal can hold.
    pub open spec fn representable(mantissa: int, scale: int) -> bool {
        &&& -MAX_MANTISSA <= mantissa <= MAX_MANTISSA
        &&& 0 <= scale <= MAX_SCALE
    }

    /// The mantissa, as a mathematical integer.
    pub closed spec fn spec_mantissa(self) -> int {
        self.mantissa as int
    }

    /// The scale: the number of digits after the decimal point.
    pub closed spec fn spec_scale(self) -> int {
        self.scale as int
    }

    /// The invariant of the type: mantissa and scale are representable.
    #[verifier::type_invariant]
    pub closed spec fn well_formed(self) -> bool {
        Self::representable(self.mantissa as int, self.scale as int)
    }

    /// The decimal with the given mantissa and scale.
    pub closed spec fn spec_new(mantissa: int, scale: int) -> Decimal {
        Decimal { mantissa: mantissa as i128, scale: scale as u32 }
    }

    /// The sum of two decimals, or `None` where it overflows.
    pub closed spec fn spec_checked_add(self, other: Decimal) -> Option<Decimal> {
        match decimal_sum(self.mantissa, self.scale, other.mantissa, other.scale) {
            Some((mantissa, scale)) => Some(Decimal { mantissa, scale }),
            None => None,
        }
    }

    /// The sum of two decimals whose sum does not overflow.
    pub open spec fn spec_add(self, other: Decimal) -> Decimal
        recommends
            self.spec_checked_add(other) is Some,
    {
        self.spec_checked_add(other)->Some_0
    }

    /// `num / 10^scale`.
    pub fn new(num: i64, scale: u32) -> (d: Decimal)
        requires
            scale <= MAX_SCALE,
        ensures
            d == Self::spec_new(num as int, scale as int),
            d.spec_mantissa() == num,
            d.spec_scale() == scale,
    {
        Decimal { mantissa: num as i128, scale }
    }

    /// `mantissa / 10^scale`, where both are within what a decimal can hold.
    pub fn try_new(mantissa: i128, scale: u32) -> (r: Option<Decimal>)
        ensures
            r is Some <==> Self::representable(mantissa as int, scale as int),
            r matches Some(d) ==> d == Self::spec_new(mantissa as int, scale as int)
                && d.spec_mantissa() == mantissa && d.spec_scale() == scale,
    {
        if scale <= MAX_SCALE && -MAX_MANTISSA <= mantissa && mantissa <= MAX_MANTISSA {
            Some(Decimal { mantissa, scale })
        } else {
            None
        }
    }

    /// The mantissa.
    pub fn mantissa(&self) -> (m: i128)
        ensures
            m == self.spec_mantissa(),
            -MAX_MANTISSA <= m <= MAX_MANTISSA,
    {
        proof {
            use_type_invariant(self);
        }
        self.mantissa
    }

    /// The scale.
    pub fn scale(&self) -> (s: u32)
        ensures
            s == self.spec_scale(),
            s <= MAX_SCALE,
    {
        proof {
            use_type_invariant(self);
        }
        self.scale
    }

    /// Whether the sum of two decimals can be held.
    pub(crate) fn sum_fits(self, other: Decimal) -> (b: bool)
        ensures
            b == (self.spec_checked_add(other) is Some),
    {
        proof {
            use_type_invariant(self);
            use_type_invariant(other);
        }
        checked_sum(self, other).is_some()
    }

    /// The sum of two decimals whose sum can be held.
    pub(crate) fn plus(self, other: Decimal) -> (r: Decimal)
        requires
            self.spec_checked_add(other) is Some,
        ensures
            r == self.spec_add(other),
    {
        proof {
            use_type_invariant(self);
            use_type_invariant(other);
        }
        sum(self, other)
    }
}

/// Two decimals with the same mantissa and the same scale are the same value.
pub proof fn lemma_decimal_eq(a: Decimal, b: Decimal)
    requires
        a.spec_mantissa() == b.spec_mantissa(),
        a.spec_scale() == b.spec_scale(),
    ensures
        a == b,
{
}

/// `rust_decimal::Decimal::checked_add`, on decimals given as mantissa and
/// scale.
///
/// Claims that the result is the one `decimal_sum` names, `None` exactly on
/// overflow, and that a sum which is returned is again a decimal of at most
/// 96 bits and scale 28. The operands are well formed, so building them does
/// not panic.
#[verifier::external_body]
fn checked_sum(a: Decimal, b: Decimal) -> (r: Option<Decimal>)
    requires
        a.well_formed(),
        b.well_formed(),
    ensures
        match decimal_sum(a.mantissa, a.scale, b.mantissa, b.scale) {
            Some((mantissa, scale)) => r matches Some(d) && d.mantissa == mantissa && d.scale
                == scale,
            None => r is None,
        },
        r matches Some(d) ==> d.well_formed(),
{
    let x = rust_decimal::Decimal::from_i128_with_scale(a.mantissa, a.scale);
    let y = rust_decimal::Decimal::from_i128_with_scale(b.mantissa, b.scale);
    match x.checked_add(y) {
        Some(s) => Some(Decimal { mantissa: s.mantissa(), scale: s.scale() }),
        None => None,
    }
}

/// The `+` of `rust_decimal::Decimal`, on decimals given as mantissa and
/// scale.
///
/// `+` panics where `checked_add` returns `None` and returns the same sum
/// otherwise; the precondition leaves the overflowing operands out.
#[verifier::external_body]
fn sum(a: Decimal, b: Decimal) -> (r: Decimal)
    requires
        a.well_formed(),
        b.well_formed(),
        decimal_sum(a.mantissa, a.scale, b.mantissa, b.scale) is Some,
    ensures
        decimal_sum(a.mantissa, a.scale, b.mantissa, b.scale) == Some((r.mantissa, r.scale)),
        r.well_formed(),
{
    let x = rust_decimal::Decimal::from_i128_with_scale(a.mantissa, a.scale);
    let y = rust_decimal::Decimal::from_i128_with_scale(b.mantissa, b.scale);
    let s = x + y;
    Decimal { mantissa: s.mantissa(), scale: s.scale() }
}

} // verus!
