//! Exact fixed-point amounts of money.

use vstd::prelude::*;

verus! {

/// The largest scale that a decimal amount can have.
pub const MAX_SCALE: u32 = 28;

/// The bound on a mantissa's magnitude: 2^96.
pub const MANTISSA_LIMIT: i128 = 79228162514264337593543950336i128;

/// A decimal amount: `mantissa / 10^scale`, exactly.
#[derive(Debug, Clone, Copy, PartialEq, Eq, Structural)]
pub struct Money {
    pub mantissa: i128,
    pub scale: u32,
}

impl Money {
    /// The pairs that a 96-bit decimal can hold.
    pub open spec fn representable(mantissa: i128, scale: u32) -> bool {
        scale <= MAX_SCALE && -MANTISSA_LIMIT < mantissa < MANTISSA_LIMIT
    }

    /// The amount fits a 96-bit decimal.
    pub open spec fn valid(self) -> bool {
        Money::representable(self.mantissa, self.scale)
    }

    /// The amount `mantissa / 10^scale`, if a 96-bit decimal can hold it.
    pub fn new(mantissa: i128, scale: u32) -> (r: Option<Money>)
        ensures
            Money::representable(mantissa, scale) ==> r == Some(Money { mantissa, scale }),
            !Money::representable(mantissa, scale) ==> r.is_none(),
    {
        let amount = Money { mantissa, scale };
        if amount.is_valid() {
            Some(amount)
        } else {
            None
        }
    }

    /// Whether the amount fits a 96-bit decimal.
    pub fn is_valid(&self) -> (r: bool)
        ensures
            r == self.valid(),
    {
        let in_scale = self.scale <= MAX_SCALE;
        let in_range = -MANTISSA_LIMIT < self.mantissa && self.mantissa < MANTISSA_LIMIT;
        in_scale && in_range
    }
}

} // verus!
