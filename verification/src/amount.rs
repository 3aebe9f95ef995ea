//! Fixed-point decimal amounts.

use vstd::prelude::*;

verus! {

/// Largest magnitude a mantissa may have: `2^96 - 1`.
pub const MAX_MANTISSA: i128 = 0x0000_0000_FFFF_FFFF_FFFF_FFFF_FFFF_FFFF;

/// Largest number of fractional digits.
pub const MAX_SCALE: u32 = 28;

/// A decimal number `mantissa / 10^scale`.
///
/// This is the plain-value form of a 96-bit decimal: a signed mantissa and
/// the number of digits after the decimal point.
#[derive(Clone, Copy, Debug, PartialEq, Eq, Structural)]
pub struct Amount {
    pub mantissa: i128,
    pub scale: u32,
}

impl Amount {
    /// The amount fits a 96-bit decimal.
    pub open spec fn valid(self) -> bool {
        &&& -MAX_MANTISSA <= self.mantissa <= MAX_MANTISSA
        &&& self.scale <= MAX_SCALE
    }

    /// The number stands for zero, whatever its scale.
    pub open spec fn is_zero_spec(&self) -> bool {
        self.mantissa == 0
    }

    /// Zero with no fractional digits.
    pub fn zero() -> (amount: Amount)
        ensures
            amount == (Amount { mantissa: 0, scale: 0 }),
            amount.valid(),
            amount.is_zero_spec(),
    {
        Amount { mantissa: 0, scale: 0 }
    }

    /// Builds an amount, or `None` when it would not fit a 96-bit decimal.
    pub fn new(mantissa: i128, scale: u32) -> (amount: Option<Amount>)
        ensures
            amount is Some <==> (Amount { mantissa, scale }).valid(),
            amount is Some ==> amount->0 == (Amount { mantissa, scale }),
    {
        if scale > MAX_SCALE || mantissa > MAX_MANTISSA || mantissa < -MAX_MANTISSA {
            None
        } else {
            Some(Amount { mantissa, scale })
        }
    }

    /// Whether the amount fits a 96-bit decimal.
    pub fn is_valid(&self) -> (ok: bool)
        ensures
            ok == self.valid(),
    {
        self.scale <= MAX_SCALE && self.mantissa <= MAX_MANTISSA && self.mantissa >= -MAX_MANTISSA
    }

    /// Whether the amount is zero.
    #[verifier::when_used_as_spec(is_zero_spec)]
    pub fn is_zero(&self) -> (zero: bool)
        ensures
            zero == self.is_zero_spec(),
    {
        self.mantissa == 0
    }
}

} // verus!
