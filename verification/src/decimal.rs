//! Decimal fractions.

use vstd::prelude::*;

use rust_decimal::prelude::FromPrimitive;

verus! {

/// A decimal fraction: the mantissa divided by ten to the power of the scale.
#[derive(Clone, Copy, Debug, PartialEq, Eq, Structural)]
pub struct Fraction {
    pub mantissa: i128,
    pub scale: u32,
}

/// One more than the largest mantissa.
pub const MANTISSA_BOUND: i128 = 0x1_0000_0000_0000_0000_0000_0000;

/// The largest scale.
pub const MAX_SCALE: u32 = 28;

impl Fraction {
    /// Whether `rust_decimal` has a decimal for this fraction.
    pub open spec fn representable(self) -> bool {
        &&& -MANTISSA_BOUND < self.mantissa < MANTISSA_BOUND
        &&& self.scale <= MAX_SCALE
    }
}

/// `Decimal::from_u128` of `rust_decimal`: the whole number, if it has at most
/// ninety-six bits.
#[verifier::external_body]
pub(crate) fn from_u128(number: u128) -> (result: Option<Fraction>)
    ensures
        result == (if number < MANTISSA_BOUND {
            Some(Fraction { mantissa: number as i128, scale: 0 })
        } else {
            None
        }),
{
    let decimal = rust_decimal::Decimal::from_u128(number)?;
    Some(Fraction { mantissa: decimal.mantissa(), scale: decimal.scale() })
}

/// `Decimal::from_u64` of `rust_decimal`: the whole number.
#[verifier::external_body]
pub(crate) fn from_u64(number: u64) -> (result: Option<Fraction>)
    ensures
        result == Some(Fraction { mantissa: number as i128, scale: 0 }),
{
    let decimal = rust_decimal::Decimal::from_u64(number)?;
    Some(Fraction { mantissa: decimal.mantissa(), scale: decimal.scale() })
}

/// What `Decimal::checked_div` of `rust_decimal` returns: the quotient, rounded
/// to the digits that a decimal has, or nothing if it has no value.
pub uninterp spec fn quotient(dividend: Fraction, divisor: Fraction) -> Option<Fraction>;

/// `Decimal::checked_div` of `rust_decimal`. What it returns is a function of
/// the two numbers alone. There is nothing to return for a divisor of zero, and
/// a quotient of whole numbers is never too large to be returned.
#[verifier::external_body]
pub(crate) fn checked_div(dividend: Fraction, divisor: Fraction) -> (result: Option<Fraction>)
    requires
        dividend.representable(),
        divisor.representable(),
    ensures
        result == quotient(dividend, divisor),
        divisor.mantissa == 0 ==> result is None,
        divisor.mantissa != 0 && dividend.scale == 0 && divisor.scale == 0 ==> result is Some,
{
    let dividend = rust_decimal::Decimal::from_i128_with_scale(dividend.mantissa, dividend.scale);
    let divisor = rust_decimal::Decimal::from_i128_with_scale(divisor.mantissa, divisor.scale);
    let decimal = dividend.checked_div(divisor)?;
    Some(Fraction { mantissa: decimal.mantissa(), scale: decimal.scale() })
}

} // verus!
