//! Fixed-point decimal numbers for ledger amounts: six fractional digits,
//! added and subtracted exactly.

use vstd::prelude::*;

verus! {

/// Number of fractional decimal digits a [`Decimal`] carries.
pub const SCALE: u32 = 6;

/// Units in one whole: `10^SCALE`.
pub const UNIT: i128 = 1_000_000;

/// Integer value `n` (a whole number) expressed in units.
pub open spec fn whole(n: int) -> int {
    n * UNIT
}

/// Whether a value in units can be held by a [`Decimal`].
pub open spec fn fits(v: int) -> bool {
    i128::MIN <= v <= i128::MAX
}

/// A decimal number with `SCALE` fractional digits, held as a count of
/// millionths. Its view is that count.
#[derive(Clone, Copy, Debug, PartialEq, Eq, Structural, Hash)]
pub struct Decimal {
    pub units: i128,
}

impl View for Decimal {
    type V = int;

    open spec fn view(&self) -> int {
        self.units as int
    }
}

/// Text of a decimal number given in units, in plain (non-scientific)
/// notation without trailing fractional zeros.
pub uninterp spec fn decimal_text(units: int) -> Seq<char>;

/// Relies on bigdecimal's `BigDecimal::new`, `normalized` and
/// `to_plain_string` to print the number `units / 10^SCALE`.
#[verifier::external_body]
fn plain_text(units: i128) -> (r: String)
    ensures
        r@ == decimal_text(units as int),
{
    let digits = bigdecimal::num_bigint::BigInt::from(units);
    bigdecimal::BigDecimal::new(digits, SCALE as i64).normalized().to_plain_string()
}

impl Decimal {
    /// Zero.
    pub fn zero() -> (r: Decimal)
        ensures
            r@ == 0,
    {
        Decimal { units: 0 }
    }

    /// The whole number `n`.
    pub fn from_int(n: i64) -> (r: Decimal)
        ensures
            r@ == whole(n as int),
    {
        Decimal { units: (n as i128) * UNIT }
    }

    /// The decimal `units / 10^SCALE`.
    pub fn from_units(units: i128) -> (r: Decimal)
        ensures
            r@ == units as int,
    {
        Decimal { units }
    }

    /// The count of units.
    pub fn units(&self) -> (r: i128)
        ensures
            r as int == self@,
    {
        self.units
    }

    pub fn is_zero(&self) -> (r: bool)
        ensures
            r == (self@ == 0),
    {
        self.units == 0
    }

    pub fn is_positive(&self) -> (r: bool)
        ensures
            r == (self@ > 0),
    {
        self.units > 0
    }

    pub fn is_negative(&self) -> (r: bool)
        ensures
            r == (self@ < 0),
    {
        self.units < 0
    }

    /// `self + other`, or `None` where the sum cannot be held.
    pub fn checked_add(&self, other: &Decimal) -> (r: Option<Decimal>)
        ensures
            r.is_some() == fits(self@ + other@),
            r.is_some() ==> r.unwrap()@ == self@ + other@,
    {
        match self.units.checked_add(other.units) {
            Some(u) => Some(Decimal { units: u }),
            None => None,
        }
    }

    /// `self - other`, or `None` where the difference cannot be held.
    pub fn checked_sub(&self, other: &Decimal) -> (r: Option<Decimal>)
        ensures
            r.is_some() == fits(self@ - other@),
            r.is_some() ==> r.unwrap()@ == self@ - other@,
    {
        match self.units.checked_sub(other.units) {
            Some(u) => Some(Decimal { units: u }),
            None => None,
        }
    }

    /// `-self`, or `None` where the negation cannot be held.
    pub fn checked_neg(&self) -> (r: Option<Decimal>)
        ensures
            r.is_some() == fits(-self@),
            r.is_some() ==> r.unwrap()@ == -self@,
    {
        if self.units == i128::MIN {
            None
        } else {
            Some(Decimal { units: -self.units })
        }
    }

    /// The number in plain decimal notation, such as `1180` or `-2.5`.
    pub fn to_text(&self) -> (r: String)
        ensures
            r@ == decimal_text(self@),
    {
        plain_text(self.units)
    }
}

} // verus!
