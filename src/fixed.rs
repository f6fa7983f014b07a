use vstd::prelude::*;

verus! {

/// Number of units in one whole asset unit: every `Fixed` carries nine
/// fractional decimal digits.
pub const SCALE: i64 = 1_000_000_000;

/// Units of `Fixed` in one smallest unit of the quote asset, which has six
/// decimals.
pub const QUOTE_UNIT_FACTOR: u64 = 1_000;

/// Division rounding toward zero, as integer division does in Rust; `b > 0`.
pub open spec fn div_toward_zero(a: int, b: int) -> int {
    if a >= 0 {
        a / b
    } else {
        -((-a) / b)
    }
}

/// The product of two nine-decimal values, rounded toward zero.
pub open spec fn scaled_product(a: int, b: int) -> int {
    div_toward_zero(a * b, SCALE as int)
}

/// The quotient of two nine-decimal values, rounded toward zero; `b > 0`.
pub open spec fn scaled_quotient(a: int, b: int) -> int {
    div_toward_zero(a * SCALE, b)
}

pub open spec fn fits_i64(x: int) -> bool {
    i64::MIN <= x <= i64::MAX
}

/// A signed decimal number with nine fractional digits, stored as an integer
/// count of `10^-9`.
#[derive(Clone, Copy, Debug, PartialEq, Eq, Structural)]
pub struct Fixed {
    pub units: i64,
}

impl Fixed {
    /// The value in units of `10^-9`.
    pub open spec fn value(self) -> int {
        self.units as int
    }

    pub fn zero() -> (r: Fixed)
        ensures
            r.value() == 0,
    {
        Fixed { units: 0 }
    }

    /// An amount of the base asset given in its smallest unit (nine decimals).
    pub fn from_base_units(n: u64) -> (r: Option<Fixed>)
        ensures
            r == (if n <= i64::MAX as u64 {
                Some(Fixed { units: n as i64 })
            } else {
                None::<Fixed>
            }),
    {
        if n <= i64::MAX as u64 {
            Some(Fixed { units: n as i64 })
        } else {
            None
        }
    }

    /// An amount of the quote asset given in its smallest unit (six decimals).
    pub fn from_quote_units(n: u64) -> (r: Option<Fixed>)
        ensures
            r is Some <==> fits_i64(n * QUOTE_UNIT_FACTOR),
            r matches Some(f) ==> f.value() == n * QUOTE_UNIT_FACTOR,
    {
        if n <= (i64::MAX as u64) / QUOTE_UNIT_FACTOR {
            Some(Fixed { units: (n * QUOTE_UNIT_FACTOR) as i64 })
        } else {
            None
        }
    }
}

/// `a / b` rounded toward zero; `b > 0`.
pub fn div_toward_zero_i128(a: i128, b: i128) -> (r: i128)
    requires
        b > 0,
        a > i128::MIN,
    ensures
        r == div_toward_zero(a as int, b as int),
{
    if a >= 0 {
        a / b
    } else {
        -((-a) / b)
    }
}

} // verus!
