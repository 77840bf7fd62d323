use vstd::prelude::*;

use scrypto::math::CheckedDiv;
use scrypto::math::Decimal;
use scrypto::math::I192;

verus! {

/// Subunits of one whole unit: ledger amounts are fixed-point values with
/// eighteen decimal places, held here as a count of attos.
pub const ATTOS_PER_UNIT: u128 = 1_000_000_000_000_000_000;

/// A nonnegative ledger amount (a vault balance, a payment, a price),
/// held as a count of attos, each 10^-18 of a unit.
#[derive(Clone, Copy, Debug, PartialEq, Eq, Structural)]
pub struct Amount {
    pub attos: u128,
}

impl Amount {
    /// The zero amount.
    pub fn zero() -> (a: Amount)
        ensures
            a.attos == 0,
    {
        Amount { attos: 0 }
    }

    /// The amount of a whole number of units.
    pub fn from_units(units: u64) -> (a: Amount)
        ensures
            a.attos == units * ATTOS_PER_UNIT,
    {
        Amount { attos: (units as u128) * ATTOS_PER_UNIT }
    }
}

/// The quotient of two amounts under fixed-point division with eighteen
/// decimal places: `a / b` scaled back to attos, truncated toward zero.
pub open spec fn div_attos(a: u128, b: u128) -> int {
    (a as int) * (ATTOS_PER_UNIT as int) / (b as int)
}

/// Relies on scrypto's `Decimal::checked_div`: division of two fixed-point
/// values with eighteen decimal places computes `a * 10^18 / b` in 256-bit
/// integer arithmetic, truncated toward zero.
#[verifier::external_body]
pub(crate) fn decimal_div_attos(a: u128, b: u128) -> (r: u128)
    requires
        b != 0,
        div_attos(a, b) <= u128::MAX,
    ensures
        r as int == div_attos(a, b),
{
    let da = Decimal::from_attos(I192::from(a));
    let db = Decimal::from_attos(I192::from(b));
    u128::try_from(da.checked_div(db).unwrap().attos()).unwrap()
}

} // verus!
