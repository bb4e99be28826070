//! Exact decimal numbers: an integer count of units of `10^-scale`, with any
//! scale. Sums and products are exact; only division rounds.

use vstd::prelude::*;

use bigdecimal::ToPrimitive;

use crate::decimal::{fits, Decimal};

verus! {

pub open spec fn pow10(n: nat) -> int
    decreases n,
{
    if n == 0 {
        1
    } else {
        10 * pow10((n - 1) as nat)
    }
}

pub proof fn lemma_pow10_mono(i: nat, n: nat)
    requires
        i <= n,
    ensures
        1 <= pow10(i) <= pow10(n),
    decreases n,
{
    if n > 0 && i < n {
        lemma_pow10_mono(i, (n - 1) as nat);
    } else if n > 0 {
        lemma_pow10_mono(0, (n - 1) as nat);
    }
}

/// The larger of two scales.
pub open spec fn top(a: nat, b: nat) -> nat {
    if a >= b {
        a
    } else {
        b
    }
}

/// The digits of a number `(digits, scale)` rewritten at scale `m >= scale`.
pub open spec fn at_scale(x: (int, nat), m: nat) -> int {
    x.0 * pow10((m - x.1) as nat)
}

/// Two numbers `(digits, scale)` have the same value.
pub open spec fn value_eq(a: (int, nat), b: (int, nat)) -> bool {
    at_scale(a, top(a.1, b.1)) == at_scale(b, top(a.1, b.1))
}

/// The exact sum, at the larger scale.
pub open spec fn plus(a: (int, nat), b: (int, nat)) -> (int, nat) {
    let m = top(a.1, b.1);
    (at_scale(a, m) + at_scale(b, m), m)
}

/// The exact product.
pub open spec fn times(a: (int, nat), b: (int, nat)) -> (int, nat) {
    (a.0 * b.0, a.1 + b.1)
}

/// Whether the exact sum can be held: both numbers rewritten at the larger
/// scale, and the sum.
pub open spec fn plus_fits(a: (int, nat), b: (int, nat)) -> bool {
    let m = top(a.1, b.1);
    fits(at_scale(a, m)) && fits(at_scale(b, m)) && fits(at_scale(a, m) + at_scale(b, m))
}

pub open spec fn times_fits(a: (int, nat), b: (int, nat)) -> bool {
    fits(a.0 * b.0) && a.1 + b.1 <= u32::MAX
}

/// A decimal number `digits * 10^-scale`. Its view is `(digits, scale)`;
/// `==` compares values, so `1.50 == 1.5`.
#[derive(Clone, Copy, Debug)]
pub struct ExactDecimal {
    pub digits: i128,
    pub scale: u32,
}

impl View for ExactDecimal {
    type V = (int, nat);

    open spec fn view(&self) -> (int, nat) {
        (self.digits as int, self.scale as nat)
    }
}

/// `10^n`, or `None` where it cannot be held.
fn power_of_ten(n: u32) -> (r: Option<i128>)
    ensures
        r is Some == fits(pow10(n as nat)),
        r is Some ==> r.unwrap() == pow10(n as nat),
{
    let mut p: i128 = 1;
    let mut i: u32 = 0;
    while i < n
        invariant
            i <= n,
            p == pow10(i as nat),
        decreases n - i,
    {
        match p.checked_mul(10) {
            Some(q) => {
                p = q;
            },
            None => {
                proof {
                    lemma_pow10_mono((i + 1) as nat, n as nat);
                }
                return None;
            },
        }
        i += 1;
    }
    Some(p)
}

/// `digits * 10^k`, or `None` where it cannot be held.
fn scale_up(digits: i128, k: u32) -> (r: Option<i128>)
    ensures
        r is Some == fits(digits * pow10(k as nat)),
        r is Some ==> r.unwrap() == digits * pow10(k as nat),
{
    if digits == 0 {
        return Some(0);
    }
    match power_of_ten(k) {
        Some(p) => digits.checked_mul(p),
        None => {
            proof {
                let q = pow10(k as nat);
                lemma_pow10_mono(0, k as nat);
                assert(q > i128::MAX);
                if digits > 0 {
                    assert(digits * q >= q) by (nonlinear_arith)
                        requires
                            digits >= 1,
                            q >= 0,
                    ;
                } else {
                    assert(digits * q <= -q) by (nonlinear_arith)
                        requires
                            digits <= -1,
                            q >= 0,
                    ;
                }
            }
            None
        },
    }
}

impl ExactDecimal {
    pub fn new(digits: i128, scale: u32) -> (r: ExactDecimal)
        ensures
            r@ == (digits as int, scale as nat),
    {
        ExactDecimal { digits, scale }
    }

    /// The whole number `n`.
    pub fn from_int(n: i64) -> (r: ExactDecimal)
        ensures
            r@ == (n as int, 0nat),
    {
        ExactDecimal { digits: n as i128, scale: 0 }
    }

    /// The same value as a fixed-point decimal.
    pub fn from_decimal(d: &Decimal) -> (r: ExactDecimal)
        ensures
            r@ == (d@, 6nat),
    {
        ExactDecimal { digits: d.units, scale: 6 }
    }

    pub fn is_zero(&self) -> (r: bool)
        ensures
            r == (self@.0 == 0),
    {
        self.digits == 0
    }

    pub fn is_positive(&self) -> (r: bool)
        ensures
            r == (self@.0 > 0),
    {
        self.digits > 0
    }

    /// The exact sum, or `None` where it cannot be held.
    pub fn checked_add(&self, other: &ExactDecimal) -> (r: Option<ExactDecimal>)
        ensures
            r is Some == plus_fits(self@, other@),
            r is Some ==> r.unwrap()@ == plus(self@, other@),
    {
        let m = if self.scale >= other.scale {
            self.scale
        } else {
            other.scale
        };
        let a = match scale_up(self.digits, m - self.scale) {
            Some(a) => a,
            None => {
                return None;
            },
        };
        let b = match scale_up(other.digits, m - other.scale) {
            Some(b) => b,
            None => {
                return None;
            },
        };
        match a.checked_add(b) {
            Some(s) => Some(ExactDecimal { digits: s, scale: m }),
            None => None,
        }
    }

    /// The exact product, or `None` where it cannot be held.
    pub fn checked_mul(&self, other: &ExactDecimal) -> (r: Option<ExactDecimal>)
        ensures
            r is Some == times_fits(self@, other@),
            r is Some ==> r.unwrap()@ == times(self@, other@),
    {
        match self.digits.checked_mul(other.digits) {
            Some(d) => match self.scale.checked_add(other.scale) {
                Some(s) => Some(ExactDecimal { digits: d, scale: s }),
                None => None,
            },
            None => None,
        }
    }

    /// Whether the two numbers have the same value.
    pub fn value_equals(&self, other: &ExactDecimal) -> (r: bool)
        ensures
            r == value_eq(self@, other@),
    {
        let m = if self.scale >= other.scale {
            self.scale
        } else {
            other.scale
        };
        proof {
            assert(pow10(0) == 1);
        }
        match (scale_up(self.digits, m - self.scale), scale_up(other.digits, m - other.scale)) {
            (Some(a), Some(b)) => a == b,
            _ => false,
        }
    }

    /// The same value as a fixed-point decimal, or `None` where that would
    /// lose digits or cannot be held.
    pub fn to_decimal(&self) -> (r: Option<Decimal>)
        ensures
            r is Some ==> value_eq((r.unwrap()@, 6nat), self@),
            self@.1 <= 6 && fits(at_scale(self@, 6)) ==> r is Some,
    {
        if self.scale <= 6 {
            return match scale_up(self.digits, 6 - self.scale) {
                Some(u) => {
                    proof {
                        assert(pow10(0) == 1);
                    }
                    Some(Decimal::from_units(u))
                },
                None => None,
            };
        }
        let p = match power_of_ten(self.scale - 6) {
            Some(p) => p,
            None => {
                return None;
            },
        };
        let q = match self.digits.checked_div(p) {
            Some(q) => q,
            None => {
                return None;
            },
        };
        match q.checked_mul(p) {
            Some(back) => {
                if back == self.digits {
                    proof {
                        assert(pow10(0) == 1);
                    }
                    Some(Decimal::from_units(q))
                } else {
                    None
                }
            },
            None => None,
        }
    }
}

impl PartialEq for ExactDecimal {
    fn eq(&self, other: &ExactDecimal) -> (r: bool) {
        self.value_equals(other)
    }
}

impl vstd::std_specs::cmp::PartialEqSpecImpl for ExactDecimal {
    open spec fn obeys_eq_spec() -> bool {
        true
    }

    open spec fn eq_spec(&self, other: &ExactDecimal) -> bool {
        value_eq(self@, other@)
    }
}

/// The result of `n / d` as bigdecimal computes it, `(digits, scale)`: long
/// division to its default precision, then rounded half to even to `scale`
/// fractional digits.
pub uninterp spec fn quotient_of(
    n_digits: int,
    n_scale: int,
    d_digits: int,
    d_scale: int,
    scale: int,
) -> (int, int);

/// Relies on bigdecimal's `BigDecimal::new`, `/`, `with_scale_round` (half
/// to even) and `into_bigint_and_exponent`, and on num-bigint's `to_i128`,
/// which returns `None` exactly where the digits do not fit.
#[verifier::external_body]
fn big_divide(n_digits: i128, n_scale: u32, d_digits: i128, d_scale: u32, scale: u32) -> (r:
    Option<(i128, i64)>)
    requires
        d_digits != 0,
    ensures
        r is Some ==> (r.unwrap().0 as int, r.unwrap().1 as int) == quotient_of(
            n_digits as int,
            n_scale as int,
            d_digits as int,
            d_scale as int,
            scale as int,
        ),
        r is None ==> !fits(
            quotient_of(
                n_digits as int,
                n_scale as int,
                d_digits as int,
                d_scale as int,
                scale as int,
            ).0,
        ),
{
    let n = bigdecimal::BigDecimal::new(bigdecimal::num_bigint::BigInt::from(n_digits), n_scale as i64);
    let d = bigdecimal::BigDecimal::new(bigdecimal::num_bigint::BigInt::from(d_digits), d_scale as i64);
    let q = (n / d).with_scale_round(scale as i64, bigdecimal::RoundingMode::HalfEven);
    let (digits, exponent) = q.into_bigint_and_exponent();
    digits.to_i128().map(|v| (v, exponent))
}

/// `n / d` as bigdecimal divides, rounded half to even to `scale`
/// fractional digits, or `None` where `d` is zero or the quotient cannot be
/// held.
pub fn checked_quotient(n: &ExactDecimal, d: &ExactDecimal, scale: u32) -> (r: Option<ExactDecimal>)
    ensures
        r is Some ==> d@.0 != 0 && value_eq(
            r.unwrap()@,
            quotient_value(quotient_of(n@.0, n@.1 as int, d@.0, d@.1 as int, scale as int)),
        ),
{
    if d.digits == 0 {
        return None;
    }
    let (digits, scale) = match big_divide(n.digits, n.scale, d.digits, d.scale, scale) {
        Some(q) => q,
        None => {
            return None;
        },
    };
    if scale >= 0 {
        if scale > u32::MAX as i64 {
            return None;
        }
        proof {
            assert(pow10(0) == 1);
        }
        Some(ExactDecimal { digits, scale: scale as u32 })
    } else {
        if scale < -(u32::MAX as i64) {
            return None;
        }
        let k = (-scale) as u32;
        match scale_up(digits, k) {
            Some(u) => {
                proof {
                    assert(pow10(0) == 1);
                }
                Some(ExactDecimal { digits: u, scale: 0 })
            },
            None => None,
        }
    }
}

/// A bigdecimal result `(digits, exponent)` as `(digits, scale)` with a
/// scale of at least zero.
pub open spec fn quotient_value(q: (int, int)) -> (int, nat) {
    if q.1 >= 0 {
        (q.0, q.1 as nat)
    } else {
        (q.0 * pow10((-q.1) as nat), 0nat)
    }
}

} // verus!
