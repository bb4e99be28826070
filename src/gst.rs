//! GST (Indian goods and services tax): rates split into central, state and
//! integrated parts, and the exact amounts they give on a base amount.

use vstd::prelude::*;

use crate::exact::{
    at_scale, checked_quotient, plus, plus_fits, top, pow10, quotient_of, quotient_value, times, times_fits,
    value_eq, ExactDecimal,
};

verus! {

/// Fractional digits of a base amount worked back from a total including
/// GST; bigdecimal rounds the quotient half to even to this many.
pub const QUOTIENT_SCALE: u32 = 12;

/// Errors of the GST calculations.
#[derive(Debug)]
pub enum GstError {
    /// The parts of a rate do not fit together.
    InvalidRate(String),
    /// No custom rate is set for the product code.
    ProductNotFound(String),
    /// An amount cannot be held.
    Calculation(String),
}

/// A GST rate in percent, with its central (CGST), state (SGST) and
/// integrated (IGST) parts.
#[derive(Clone, Copy, Debug, PartialEq)]
pub struct GstRate {
    pub total_rate: ExactDecimal,
    pub cgst_rate: ExactDecimal,
    pub sgst_rate: ExactDecimal,
    pub igst_rate: ExactDecimal,
}

/// A consistent rate: the parts add up to the total; where there is no
/// integrated part the central and state parts are equal; where there is
/// one, the other two are not positive.
pub open spec fn rate_valid(r: GstRate) -> bool {
    let c = r.cgst_rate@;
    let s = r.sgst_rate@;
    let i = r.igst_rate@;
    &&& plus_fits(c, s)
    &&& plus_fits(plus(c, s), i)
    &&& value_eq(plus(plus(c, s), i), r.total_rate@)
    &&& i.0 == 0 ==> value_eq(c, s)
    &&& i.0 > 0 ==> c.0 <= 0 && s.0 <= 0
}

/// One hundredth, `(1, 2)`.
pub open spec fn hundredth() -> (int, nat) {
    (1, 2)
}

/// `percent`% of `base`, exactly: `base * percent * 0.01`.
pub open spec fn percent_of(base: (int, nat), percent: (int, nat)) -> (int, nat) {
    times(times(base, percent), hundredth())
}

pub open spec fn percent_fits(base: (int, nat), percent: (int, nat)) -> bool {
    times_fits(base, percent) && times_fits(times(base, percent), hundredth())
}

/// The value equation of a part: `part * 100 == base * percent`.
pub proof fn lemma_percent_value(base: (int, nat), percent: (int, nat))
    ensures
        value_eq(times(percent_of(base, percent), (100, 0)), times(base, percent)),
{
    assert(pow10(0) == 1);
    assert(pow10(1) == 10);
    assert(pow10(2) == 100);
    let p = times(base, percent);
    let m = p.1 + 2;
    assert(((m - (p.1 + 2)) as nat) == 0);
    assert(((m - p.1) as nat) == 2);
    assert(p.0 * 1 * 100 * 1 == p.0 * 100) by (nonlinear_arith);
}

impl GstRate {
    /// An intra-state rate: half of the total each to CGST and SGST.
    pub fn intra_state(total_rate: ExactDecimal) -> (r: GstRate)
        requires
            times_fits(total_rate@, (5, 1)),
        ensures
            r.total_rate == total_rate,
            r.cgst_rate@ == times(total_rate@, (5, 1)),
            r.sgst_rate@ == times(total_rate@, (5, 1)),
            r.igst_rate@ == (0int, 0nat),
    {
        let half = match total_rate.checked_mul(&ExactDecimal::new(5, 1)) {
            Some(h) => h,
            None => ExactDecimal::from_int(0),
        };
        GstRate {
            total_rate,
            cgst_rate: half,
            sgst_rate: half,
            igst_rate: ExactDecimal::from_int(0),
        }
    }

    /// An inter-state rate: all of it IGST.
    pub fn inter_state(total_rate: ExactDecimal) -> (r: GstRate)
        ensures
            r.total_rate == total_rate,
            r.cgst_rate@ == (0int, 0nat),
            r.sgst_rate@ == (0int, 0nat),
            r.igst_rate == total_rate,
    {
        GstRate {
            total_rate,
            cgst_rate: ExactDecimal::from_int(0),
            sgst_rate: ExactDecimal::from_int(0),
            igst_rate: total_rate,
        }
    }

    /// Checks that the parts fit together.
    pub fn validate(&self) -> (r: Result<(), GstError>)
        ensures
            r is Ok == rate_valid(*self),
            r is Err ==> r->Err_0 is InvalidRate,
    {
        let sum = match self.cgst_rate.checked_add(&self.sgst_rate) {
            Some(s) => s.checked_add(&self.igst_rate),
            None => None,
        };
        match sum {
            Some(s) => {
                if !s.value_equals(&self.total_rate) {
                    return Err(
                        GstError::InvalidRate(
                            "GST components don't add up to total rate".to_string(),
                        ),
                    );
                }
            },
            None => {
                return Err(GstError::InvalidRate("GST components out of range".to_string()));
            },
        }
        if self.igst_rate.is_zero() && !self.cgst_rate.value_equals(&self.sgst_rate) {
            return Err(
                GstError::InvalidRate(
                    "CGST and SGST rates must be equal for intra-state transactions".to_string(),
                ),
            );
        }
        if self.igst_rate.is_positive() && (self.cgst_rate.is_positive()
            || self.sgst_rate.is_positive()) {
            return Err(
                GstError::InvalidRate(
                    "Only IGST should be applicable for inter-state transactions".to_string(),
                ),
            );
        }
        Ok(())
    }
}

/// `percent`% of `base`, exactly, or `None` where it cannot be held.
fn percentage(base: &ExactDecimal, percent: &ExactDecimal) -> (r: Option<ExactDecimal>)
    ensures
        r is Some == percent_fits(base@, percent@),
        r is Some ==> r.unwrap()@ == percent_of(base@, percent@),
{
    match base.checked_mul(percent) {
        Some(p) => p.checked_mul(&ExactDecimal::new(1, 2)),
        None => None,
    }
}

/// The GST on a base amount at a rate, part by part, exactly.
#[derive(Clone, Copy, Debug, PartialEq)]
pub struct GstCalculation {
    pub base_amount: ExactDecimal,
    pub gst_rate: GstRate,
    pub cgst_amount: ExactDecimal,
    pub sgst_amount: ExactDecimal,
    pub igst_amount: ExactDecimal,
    /// CGST plus SGST plus IGST.
    pub total_gst_amount: ExactDecimal,
    /// Base plus all GST.
    pub total_amount: ExactDecimal,
}

/// Whether every amount of the calculation on `base` at `rate` can be held.
pub open spec fn calculation_fits(base: (int, nat), rate: GstRate) -> bool {
    let c = percent_of(base, rate.cgst_rate@);
    let s = percent_of(base, rate.sgst_rate@);
    let i = percent_of(base, rate.igst_rate@);
    &&& percent_fits(base, rate.cgst_rate@)
    &&& percent_fits(base, rate.sgst_rate@)
    &&& percent_fits(base, rate.igst_rate@)
    &&& plus_fits(c, s)
    &&& plus_fits(plus(c, s), i)
    &&& plus_fits(base, plus(plus(c, s), i))
}

/// The calculation has the parts of `rate` applied to `base`, exactly:
/// each part times one hundred equals the base times its rate.
pub open spec fn calculated(r: GstCalculation, base: ExactDecimal, rate: GstRate) -> bool {
    &&& r.base_amount == base
    &&& r.gst_rate == rate
    &&& r.cgst_amount@ == percent_of(base@, rate.cgst_rate@)
    &&& r.sgst_amount@ == percent_of(base@, rate.sgst_rate@)
    &&& r.igst_amount@ == percent_of(base@, rate.igst_rate@)
    &&& value_eq(times(r.cgst_amount@, (100, 0)), times(base@, rate.cgst_rate@))
    &&& value_eq(times(r.sgst_amount@, (100, 0)), times(base@, rate.sgst_rate@))
    &&& value_eq(times(r.igst_amount@, (100, 0)), times(base@, rate.igst_rate@))
    &&& r.total_gst_amount@ == plus(plus(r.cgst_amount@, r.sgst_amount@), r.igst_amount@)
    &&& r.total_amount@ == plus(base@, r.total_gst_amount@)
}

impl GstCalculation {
    /// The GST on `base_amount` at `gst_rate`, exactly.
    pub fn calculate(base_amount: ExactDecimal, gst_rate: GstRate) -> (r: Result<
        GstCalculation,
        GstError,
    >)
        ensures
            r is Ok == (rate_valid(gst_rate) && calculation_fits(base_amount@, gst_rate)),
            r is Ok ==> calculated(r->Ok_0, base_amount, gst_rate),
            !rate_valid(gst_rate) ==> r is Err && r->Err_0 is InvalidRate,
            rate_valid(gst_rate) && r is Err ==> r->Err_0 is Calculation,
    {
        gst_rate.validate()?;
        let out_of_range = "GST amount out of range";
        let cgst_amount = match percentage(&base_amount, &gst_rate.cgst_rate) {
            Some(a) => a,
            None => {
                return Err(GstError::Calculation(out_of_range.to_string()));
            },
        };
        let sgst_amount = match percentage(&base_amount, &gst_rate.sgst_rate) {
            Some(a) => a,
            None => {
                return Err(GstError::Calculation(out_of_range.to_string()));
            },
        };
        let igst_amount = match percentage(&base_amount, &gst_rate.igst_rate) {
            Some(a) => a,
            None => {
                return Err(GstError::Calculation(out_of_range.to_string()));
            },
        };
        let total_gst_amount = match cgst_amount.checked_add(&sgst_amount) {
            Some(t) => match t.checked_add(&igst_amount) {
                Some(u) => u,
                None => {
                    return Err(GstError::Calculation(out_of_range.to_string()));
                },
            },
            None => {
                return Err(GstError::Calculation(out_of_range.to_string()));
            },
        };
        let total_amount = match base_amount.checked_add(&total_gst_amount) {
            Some(t) => t,
            None => {
                return Err(GstError::Calculation(out_of_range.to_string()));
            },
        };
        proof {
            lemma_percent_value(base_amount@, gst_rate.cgst_rate@);
            lemma_percent_value(base_amount@, gst_rate.sgst_rate@);
            lemma_percent_value(base_amount@, gst_rate.igst_rate@);
        }
        Ok(
            GstCalculation {
                base_amount,
                gst_rate,
                cgst_amount,
                sgst_amount,
                igst_amount,
                total_gst_amount,
                total_amount,
            },
        )
    }

    /// Works back from an amount that includes GST: the base is
    /// `total * 100 / (100 + rate)` as bigdecimal divides, rounded half to
    /// even to `QUOTIENT_SCALE` digits, and the GST is then calculated on it.
    pub fn reverse_calculate(total_amount: ExactDecimal, gst_rate: GstRate) -> (r: Result<
        GstCalculation,
        GstError,
    >)
        ensures
            !rate_valid(gst_rate) ==> r is Err && r->Err_0 is InvalidRate,
            r is Ok ==> {
                let n = times(total_amount@, (100, 0));
                let d = plus((100, 0), gst_rate.total_rate@);
                let base = r->Ok_0.base_amount;
                &&& value_eq(
                    base@,
                    quotient_value(
                        quotient_of(n.0, n.1 as int, d.0, d.1 as int, QUOTIENT_SCALE as int),
                    ),
                )
                &&& calculated(r->Ok_0, base, gst_rate)
            },
    {
        gst_rate.validate()?;
        let out_of_range = "GST amount out of range";
        let hundred = ExactDecimal::from_int(100);
        let divisor = match hundred.checked_add(&gst_rate.total_rate) {
            Some(d) => d,
            None => {
                return Err(GstError::Calculation(out_of_range.to_string()));
            },
        };
        let numerator = match total_amount.checked_mul(&hundred) {
            Some(n) => n,
            None => {
                return Err(GstError::Calculation(out_of_range.to_string()));
            },
        };
        let base = match checked_quotient(&numerator, &divisor, QUOTIENT_SCALE) {
            Some(b) => b,
            None => {
                return Err(GstError::Calculation(out_of_range.to_string()));
            },
        };
        GstCalculation::calculate(base, gst_rate)
    }
}

/// Standard GST categories of goods and services.
#[derive(Clone, Copy, Debug, PartialEq, Eq, Structural, Hash)]
pub enum GstCategory {
    /// 0%: food, medicines and other essentials.
    Essential,
    /// 5%.
    Reduced,
    /// 12%.
    Standard,
    /// 18%.
    Higher,
    /// 28%: luxury and sin goods.
    Luxury,
}

/// The rate of a category in whole percent.
pub open spec fn category_percent(c: GstCategory) -> int {
    match c {
        GstCategory::Essential => 0,
        GstCategory::Reduced => 5,
        GstCategory::Standard => 12,
        GstCategory::Higher => 18,
        GstCategory::Luxury => 28,
    }
}

impl GstCategory {
    /// The category's total rate in percent.
    pub fn rate(&self) -> (r: ExactDecimal)
        ensures
            r@ == (category_percent(*self), 0nat),
    {
        match self {
            GstCategory::Essential => ExactDecimal::from_int(0),
            GstCategory::Reduced => ExactDecimal::from_int(5),
            GstCategory::Standard => ExactDecimal::from_int(12),
            GstCategory::Higher => ExactDecimal::from_int(18),
            GstCategory::Luxury => ExactDecimal::from_int(28),
        }
    }

    /// The category's rate split evenly into CGST and SGST.
    pub fn intra_state_rate(&self) -> (r: GstRate)
        ensures
            r == intra_rate(*self),
    {
        GstRate::intra_state(self.rate())
    }

    /// The category's rate as IGST.
    pub fn inter_state_rate(&self) -> (r: GstRate)
        ensures
            r == inter_rate(*self),
    {
        GstRate::inter_state(self.rate())
    }
}

pub open spec fn intra_rate(c: GstCategory) -> GstRate {
    let half = ExactDecimal { digits: (category_percent(c) * 5) as i128, scale: 1 };
    GstRate {
        total_rate: ExactDecimal { digits: category_percent(c) as i128, scale: 0 },
        cgst_rate: half,
        sgst_rate: half,
        igst_rate: ExactDecimal { digits: 0, scale: 0 },
    }
}

pub open spec fn inter_rate(c: GstCategory) -> GstRate {
    let total = ExactDecimal { digits: category_percent(c) as i128, scale: 0 };
    GstRate {
        total_rate: total,
        cgst_rate: ExactDecimal { digits: 0, scale: 0 },
        sgst_rate: ExactDecimal { digits: 0, scale: 0 },
        igst_rate: total,
    }
}

/// The rate of a category for a supply within one state or across states.
pub open spec fn category_rate(c: GstCategory, inter_state: bool) -> GstRate {
    if inter_state {
        inter_rate(c)
    } else {
        intra_rate(c)
    }
}

proof fn lemma_category_rates_valid(c: GstCategory)
    ensures
        rate_valid(intra_rate(c)),
        rate_valid(inter_rate(c)),
{
    assert(pow10(0) == 1);
    assert(pow10(1) == 10);
    let p = category_percent(c);
    let r = intra_rate(c);
    assert(r.cgst_rate@ == (p * 5, 1nat));
    assert(plus(r.cgst_rate@, r.sgst_rate@) == (p * 10, 1nat));
    assert(r.igst_rate@ == (0int, 0nat));
    assert(top(1nat, 0nat) == 1nat);
    assert(at_scale((0int, 0nat), 1nat) == 0 * pow10(1nat));
    assert(at_scale((p * 10, 1nat), 1nat) == p * 10 * pow10(0nat));
    assert(plus((p * 10, 1nat), r.igst_rate@) == (p * 10, 1nat));
    assert(value_eq((p * 10, 1nat), r.total_rate@));
}

/// The rate stored for product `code`, if any.
pub open spec fn custom_rate_of(s: Seq<(Seq<char>, GstRate)>, code: Seq<char>) -> Option<GstRate> {
    if exists|i: int| 0 <= i < s.len() && #[trigger] s[i].0 == code {
        Some(s[choose|i: int| 0 <= i < s.len() && #[trigger] s[i].0 == code].1)
    } else {
        None
    }
}

pub open spec fn codes_unique(s: Seq<(Seq<char>, GstRate)>) -> bool {
    forall|i: int, j: int|
        0 <= i < s.len() && 0 <= j < s.len() && #[trigger] s[i].0 == #[trigger] s[j].0 ==> i == j
}

/// The categories in declaration order.
pub open spec fn all_categories() -> Seq<GstCategory> {
    seq![
        GstCategory::Essential,
        GstCategory::Reduced,
        GstCategory::Standard,
        GstCategory::Higher,
        GstCategory::Luxury,
    ]
}

pub open spec fn rate_codes(v: Seq<(String, GstRate)>) -> Seq<(Seq<char>, GstRate)> {
    v.map_values(|p: (String, GstRate)| (p.0@, p.1))
}

/// Calculates GST by category, by product code or at an explicit rate.
#[derive(Debug)]
pub struct GstCalculator {
    category_rates: Vec<(GstCategory, GstRate)>,
    custom_rates: Vec<(String, GstRate)>,
    default_is_inter_state: bool,
}

impl GstCalculator {
    /// The custom rates by product code.
    pub closed spec fn custom(&self) -> Seq<(Seq<char>, GstRate)> {
        rate_codes(self.custom_rates@)
    }

    /// The standard rate of each category, in declaration order.
    pub closed spec fn standard(&self) -> Seq<(GstCategory, GstRate)> {
        self.category_rates@
    }

    /// Whether supplies are inter-state unless a call says otherwise.
    pub closed spec fn inter_state_by_default(&self) -> bool {
        self.default_is_inter_state
    }

    /// No product code has two custom rates.
    #[verifier::type_invariant]
    spec fn wf(&self) -> bool {
        codes_unique(self.custom())
    }

    /// A calculator with the standard category rates and no custom rates.
    pub fn new(default_is_inter_state: bool) -> (r: GstCalculator)
        ensures
            r.inter_state_by_default() == default_is_inter_state,
            r.custom().len() == 0,
            r.standard() == all_categories().map_values(
                |c: GstCategory| (c, category_rate(c, default_is_inter_state)),
            ),
    {
        let mut calculator = GstCalculator {
            category_rates: Vec::new(),
            custom_rates: Vec::new(),
            default_is_inter_state,
        };
        calculator.setup_standard_rates();
        proof {
            assert(calculator.custom() =~= Seq::<(Seq<char>, GstRate)>::empty());
        }
        calculator
    }

    fn setup_standard_rates(&mut self)
        ensures
            final(self).custom_rates == old(self).custom_rates,
            final(self).default_is_inter_state == old(self).default_is_inter_state,
            final(self).standard() == all_categories().map_values(
                |c: GstCategory| (c, category_rate(c, old(self).default_is_inter_state)),
            ),
    {
        let categories = [
            GstCategory::Essential,
            GstCategory::Reduced,
            GstCategory::Standard,
            GstCategory::Higher,
            GstCategory::Luxury,
        ];
        proof {
            use_type_invariant(&*self);
        }
        let inter = self.default_is_inter_state;
        let ghost target = all_categories().map_values(
            |c: GstCategory| (c, category_rate(c, inter)),
        );
        proof {
            assert(categories@ =~= all_categories());
        }
        let mut rates: Vec<(GstCategory, GstRate)> = Vec::new();
        let mut i: usize = 0;
        while i < 5
            invariant
                i <= 5,
                categories@ == all_categories(),
                target == all_categories().map_values(
                    |c: GstCategory| (c, category_rate(c, inter)),
                ),
                rates@ == target.take(i as int),
            decreases 5 - i,
        {
            let category = categories[i];
            let rate = if inter {
                category.inter_state_rate()
            } else {
                category.intra_state_rate()
            };
            rates.push((category, rate));
            i += 1;
            proof {
                assert(rates@ =~= target.take(i as int));
            }
        }
        proof {
            assert(target.take(5) =~= target);
        }
        self.category_rates = rates;
    }

    /// Sets the rate for a product code, replacing any earlier one; the rate
    /// must be consistent.
    pub fn set_custom_rate(&mut self, product_code: String, gst_rate: GstRate) -> (r: Result<
        (),
        GstError,
    >)
        ensures
            r is Ok == rate_valid(gst_rate),
            r is Ok ==> custom_rate_of(final(self).custom(), product_code@) == Some(gst_rate),
            r is Ok ==> forall|code: Seq<char>|
                code != product_code@ ==> #[trigger] custom_rate_of(final(self).custom(), code)
                    == custom_rate_of(old(self).custom(), code),
            r is Err ==> final(self).custom() == old(self).custom() && r->Err_0 is InvalidRate,
            final(self).standard() == old(self).standard(),
            final(self).inter_state_by_default() == old(self).inter_state_by_default(),
    {
        proof {
            use_type_invariant(&*self);
        }
        gst_rate.validate()?;
        let ghost s = self.custom();
        let mut i: usize = 0;
        while i < self.custom_rates.len()
            invariant
                i <= self.custom_rates.len(),
                s == self.custom(),
                codes_unique(s),
                self.category_rates == old(self).category_rates,
                self.default_is_inter_state == old(self).default_is_inter_state,
                s == old(self).custom(),
                rate_valid(gst_rate),
                forall|j: int| 0 <= j < i ==> #[trigger] s[j].0 != product_code@,
            decreases self.custom_rates.len() - i,
        {
            if self.custom_rates[i].0 == product_code {
                let mut rates: Vec<(String, GstRate)> = Vec::new();
                core::mem::swap(&mut self.custom_rates, &mut rates);
                rates.set(i, (product_code, gst_rate));
                proof {
                    let t = rate_codes(rates@);
                    assert(t =~= s.update(i as int, (s[i as int].0, gst_rate)));
                    assert(t[i as int].0 == product_code@);
                    let k = choose|k: int| 0 <= k < t.len() && #[trigger] t[k].0 == product_code@;
                    assert(k == i);
                    assert forall|code: Seq<char>| code != product_code@ implies #[trigger] custom_rate_of(
                        t,
                        code,
                    ) == custom_rate_of(s, code) by {
                        if exists|j: int| 0 <= j < s.len() && #[trigger] s[j].0 == code {
                            let a = choose|j: int| 0 <= j < s.len() && #[trigger] s[j].0 == code;
                            assert(t[a].0 == code);
                            let b = choose|j: int| 0 <= j < t.len() && #[trigger] t[j].0 == code;
                            assert(s[b].0 == code);
                        }
                        if exists|j: int| 0 <= j < t.len() && #[trigger] t[j].0 == code {
                            let b = choose|j: int| 0 <= j < t.len() && #[trigger] t[j].0 == code;
                            assert(s[b].0 == code);
                        }
                    }
                    assert forall|a: int, b: int|
                        0 <= a < t.len() && 0 <= b < t.len() && #[trigger] t[a].0 == #[trigger] t[b].0
                        implies a == b by {
                        assert(s[a].0 == s[b].0);
                    }
                }
                self.custom_rates = rates;
                return Ok(());
            }
            i += 1;
        }
        let ghost code_view = product_code@;
        let mut rates: Vec<(String, GstRate)> = Vec::new();
        core::mem::swap(&mut self.custom_rates, &mut rates);
        rates.push((product_code, gst_rate));
        proof {
            let t = rate_codes(rates@);
            assert(t =~= s.push((code_view, gst_rate)));
            assert(t[s.len() as int].0 == code_view);
            let k = choose|k: int| 0 <= k < t.len() && #[trigger] t[k].0 == code_view;
            assert(k == s.len());
            assert forall|code: Seq<char>| code != code_view implies #[trigger] custom_rate_of(t, code)
                == custom_rate_of(s, code) by {
                if exists|j: int| 0 <= j < s.len() && #[trigger] s[j].0 == code {
                    let a = choose|j: int| 0 <= j < s.len() && #[trigger] s[j].0 == code;
                    assert(t[a].0 == code);
                }
                if exists|j: int| 0 <= j < t.len() && #[trigger] t[j].0 == code {
                    let b = choose|j: int| 0 <= j < t.len() && #[trigger] t[j].0 == code;
                    assert(b < s.len());
                    assert(s[b].0 == code);
                }
            }
            assert forall|a: int, b: int|
                0 <= a < t.len() && 0 <= b < t.len() && #[trigger] t[a].0 == #[trigger] t[b].0 implies a
                == b by {
                if a < s.len() && b < s.len() {
                    assert(s[a].0 == s[b].0);
                } else if a < s.len() {
                    assert(s[a].0 == code_view);
                } else if b < s.len() {
                    assert(s[b].0 == code_view);
                }
            }
        }
        self.custom_rates = rates;
        Ok(())
    }

    /// GST on `base_amount` at the category's standard rate, inter-state or
    /// not as asked, else as the calculator's default.
    pub fn calculate_by_category(
        &self,
        base_amount: ExactDecimal,
        category: GstCategory,
        is_inter_state: Option<bool>,
    ) -> (r: Result<GstCalculation, GstError>)
        ensures
            ({
                let rate = category_rate(
                    category,
                    match is_inter_state {
                        Some(b) => b,
                        None => self.inter_state_by_default(),
                    },
                );
                &&& r is Ok == calculation_fits(base_amount@, rate)
                &&& r is Ok ==> calculated(r->Ok_0, base_amount, rate)
            }),
    {
        let inter = match is_inter_state {
            Some(b) => b,
            None => self.default_is_inter_state,
        };
        let gst_rate = if inter {
            category.inter_state_rate()
        } else {
            category.intra_state_rate()
        };
        proof {
            lemma_category_rates_valid(category);
        }
        GstCalculation::calculate(base_amount, gst_rate)
    }

    /// GST on `base_amount` at the custom rate of `product_code`.
    pub fn calculate_by_product(&self, base_amount: ExactDecimal, product_code: &str) -> (r: Result<
        GstCalculation,
        GstError,
    >)
        ensures
            ({
                let rate = custom_rate_of(self.custom(), product_code@);
                &&& rate is None ==> r is Err && r->Err_0 is ProductNotFound
                &&& rate is Some ==> (r is Ok == (rate_valid(rate.unwrap()) && calculation_fits(
                    base_amount@,
                    rate.unwrap(),
                )))
                &&& r is Ok ==> calculated(r->Ok_0, base_amount, rate.unwrap())
            }),
    {
        proof {
            use_type_invariant(self);
        }
        let key = product_code.to_owned();
        let ghost s = self.custom();
        let mut i: usize = 0;
        while i < self.custom_rates.len()
            invariant
                i <= self.custom_rates.len(),
                s == self.custom(),
                codes_unique(s),
                key@ == product_code@,
                forall|j: int| 0 <= j < i ==> #[trigger] s[j].0 != product_code@,
            decreases self.custom_rates.len() - i,
        {
            if self.custom_rates[i].0 == key {
                proof {
                    assert(s[i as int].0 == product_code@);
                    let k = choose|k: int| 0 <= k < s.len() && #[trigger] s[k].0 == product_code@;
                    assert(k == i);
                }
                return GstCalculation::calculate(base_amount, self.custom_rates[i].1);
            }
            i += 1;
        }
        Err(GstError::ProductNotFound(key))
    }

    /// GST on `base_amount` at `gst_rate`.
    pub fn calculate_with_rate(&self, base_amount: ExactDecimal, gst_rate: GstRate) -> (r: Result<
        GstCalculation,
        GstError,
    >)
        ensures
            r is Ok == (rate_valid(gst_rate) && calculation_fits(base_amount@, gst_rate)),
            r is Ok ==> calculated(r->Ok_0, base_amount, gst_rate),
    {
        GstCalculation::calculate(base_amount, gst_rate)
    }

    /// Works back from an amount including GST at the category's rate.
    pub fn reverse_calculate_by_category(
        &self,
        total_amount: ExactDecimal,
        category: GstCategory,
        is_inter_state: Option<bool>,
    ) -> (r: Result<GstCalculation, GstError>)
        ensures
            ({
                let rate = category_rate(
                    category,
                    match is_inter_state {
                        Some(b) => b,
                        None => self.inter_state_by_default(),
                    },
                );
                let n = times(total_amount@, (100, 0));
                let d = plus((100, 0), rate.total_rate@);
                &&& r is Ok ==> value_eq(
                    r->Ok_0.base_amount@,
                    quotient_value(quotient_of(n.0, n.1 as int, d.0, d.1 as int, QUOTIENT_SCALE as int)),
                )
                &&& r is Ok ==> calculated(r->Ok_0, r->Ok_0.base_amount, rate)
            }),
    {
        let inter = match is_inter_state {
            Some(b) => b,
            None => self.default_is_inter_state,
        };
        let gst_rate = if inter {
            category.inter_state_rate()
        } else {
            category.intra_state_rate()
        };
        proof {
            lemma_category_rates_valid(category);
        }
        GstCalculation::reverse_calculate(total_amount, gst_rate)
    }
}

/// An invoice line: quantity times unit price, with its GST.
#[derive(Debug)]
pub struct GstLineItem {
    pub description: String,
    pub quantity: ExactDecimal,
    pub unit_price: ExactDecimal,
    pub line_total_before_gst: ExactDecimal,
    pub gst_calculation: GstCalculation,
    pub line_total_with_gst: ExactDecimal,
}

impl Clone for GstLineItem {
    fn clone(&self) -> (r: GstLineItem)
        ensures
            r == *self,
    {
        GstLineItem {
            description: self.description.clone(),
            quantity: self.quantity,
            unit_price: self.unit_price,
            line_total_before_gst: self.line_total_before_gst,
            gst_calculation: self.gst_calculation,
            line_total_with_gst: self.line_total_with_gst,
        }
    }
}

impl GstLineItem {
    /// A line of `quantity` units at `unit_price`, with GST at `gst_rate`
    /// on the exact line total.
    pub fn new(
        description: String,
        quantity: ExactDecimal,
        unit_price: ExactDecimal,
        gst_rate: GstRate,
    ) -> (r: Result<GstLineItem, GstError>)
        ensures
            ({
                let line = times(quantity@, unit_price@);
                &&& r is Ok == (times_fits(quantity@, unit_price@) && rate_valid(gst_rate)
                    && calculation_fits(line, gst_rate))
                &&& r is Ok ==> {
                    let item = r->Ok_0;
                    &&& item.description == description
                    &&& item.quantity == quantity
                    &&& item.unit_price == unit_price
                    &&& item.line_total_before_gst@ == line
                    &&& calculated(item.gst_calculation, item.line_total_before_gst, gst_rate)
                    &&& item.line_total_with_gst == item.gst_calculation.total_amount
                }
            }),
    {
        let line_total_before_gst = match quantity.checked_mul(&unit_price) {
            Some(t) => t,
            None => {
                return Err(GstError::Calculation("line total out of range".to_string()));
            },
        };
        let gst_calculation = GstCalculation::calculate(line_total_before_gst, gst_rate)?;
        let line_total_with_gst = gst_calculation.total_amount;
        Ok(
            GstLineItem {
                description,
                quantity,
                unit_price,
                line_total_before_gst,
                gst_calculation,
                line_total_with_gst,
            },
        )
    }
}

/// The exact sum of `xs`, or `None` where a running total cannot be held.
pub open spec fn exact_total(xs: Seq<(int, nat)>) -> Option<(int, nat)>
    decreases xs.len(),
{
    if xs.len() == 0 {
        Some((0, 0))
    } else {
        match exact_total(xs.drop_last()) {
            None => None,
            Some(t) => if plus_fits(t, xs.last()) {
                Some(plus(t, xs.last()))
            } else {
                None
            },
        }
    }
}

pub open spec fn befores(items: Seq<GstLineItem>) -> Seq<(int, nat)> {
    items.map_values(|i: GstLineItem| i.line_total_before_gst@)
}

pub open spec fn cgsts(items: Seq<GstLineItem>) -> Seq<(int, nat)> {
    items.map_values(|i: GstLineItem| i.gst_calculation.cgst_amount@)
}

pub open spec fn sgsts(items: Seq<GstLineItem>) -> Seq<(int, nat)> {
    items.map_values(|i: GstLineItem| i.gst_calculation.sgst_amount@)
}

pub open spec fn igsts(items: Seq<GstLineItem>) -> Seq<(int, nat)> {
    items.map_values(|i: GstLineItem| i.gst_calculation.igst_amount@)
}

/// Whether every total of an invoice of `items` can be held.
pub open spec fn invoice_fits(items: Seq<GstLineItem>) -> bool {
    let b = exact_total(befores(items));
    let c = exact_total(cgsts(items));
    let s = exact_total(sgsts(items));
    let i = exact_total(igsts(items));
    &&& b is Some && c is Some && s is Some && i is Some
    &&& plus_fits(c.unwrap(), s.unwrap())
    &&& plus_fits(plus(c.unwrap(), s.unwrap()), i.unwrap())
    &&& plus_fits(b.unwrap(), plus(plus(c.unwrap(), s.unwrap()), i.unwrap()))
}

/// The invoice totals are the exact sums over `items`.
pub open spec fn totals_of(inv: GstInvoice, items: Seq<GstLineItem>) -> bool {
    &&& inv.line_items@ == items
    &&& Some(inv.total_before_gst@) == exact_total(befores(items))
    &&& Some(inv.total_cgst@) == exact_total(cgsts(items))
    &&& Some(inv.total_sgst@) == exact_total(sgsts(items))
    &&& Some(inv.total_igst@) == exact_total(igsts(items))
    &&& inv.total_gst@ == plus(plus(inv.total_cgst@, inv.total_sgst@), inv.total_igst@)
    &&& inv.grand_total@ == plus(inv.total_before_gst@, inv.total_gst@)
}

/// An invoice: its lines and the totals over them.
#[derive(Debug)]
pub struct GstInvoice {
    pub line_items: Vec<GstLineItem>,
    pub total_before_gst: ExactDecimal,
    pub total_cgst: ExactDecimal,
    pub total_sgst: ExactDecimal,
    pub total_igst: ExactDecimal,
    pub total_gst: ExactDecimal,
    pub grand_total: ExactDecimal,
}

proof fn lemma_total_prefix_none(xs: Seq<(int, nat)>, i: int)
    requires
        0 <= i <= xs.len(),
        exact_total(xs.take(i)) is None,
    ensures
        exact_total(xs) is None,
    decreases xs.len() - i,
{
    if i < xs.len() {
        assert(xs.take(i + 1).drop_last() =~= xs.take(i));
        lemma_total_prefix_none(xs, i + 1);
    } else {
        assert(xs.take(i) =~= xs);
    }
}

/// Adds the next value to a running total.
fn running_total(xs: Ghost<Seq<(int, nat)>>, total: &ExactDecimal, i: usize, next: &ExactDecimal) -> (r:
    Option<ExactDecimal>)
    requires
        0 <= i < xs@.len(),
        exact_total(xs@.take(i as int)) == Some(total@),
        next@ == xs@[i as int],
    ensures
        r is Some ==> exact_total(xs@.take(i + 1)) == Some(r.unwrap()@),
        r is None ==> exact_total(xs@) is None,
{
    proof {
        assert(xs@.take(i + 1).drop_last() =~= xs@.take(i as int));
    }
    let r = total.checked_add(next);
    proof {
        if r is None {
            lemma_total_prefix_none(xs@, i + 1);
        }
    }
    r
}

impl GstInvoice {
    /// An invoice of `line_items` with its exact totals, or `Calculation`
    /// where a total cannot be held.
    pub fn new(line_items: Vec<GstLineItem>) -> (r: Result<GstInvoice, GstError>)
        ensures
            r is Ok == invoice_fits(line_items@),
            r is Ok ==> totals_of(r->Ok_0, line_items@),
            r is Err ==> r->Err_0 is Calculation,
    {
        let out_of_range = "invoice total out of range";
        let ghost items = line_items@;
        let mut before = ExactDecimal::from_int(0);
        let mut cgst = ExactDecimal::from_int(0);
        let mut sgst = ExactDecimal::from_int(0);
        let mut igst = ExactDecimal::from_int(0);
        let mut i: usize = 0;
        proof {
            assert(befores(items).take(0) =~= Seq::<(int, nat)>::empty());
            assert(cgsts(items).take(0) =~= Seq::<(int, nat)>::empty());
            assert(sgsts(items).take(0) =~= Seq::<(int, nat)>::empty());
            assert(igsts(items).take(0) =~= Seq::<(int, nat)>::empty());
        }
        while i < line_items.len()
            invariant
                i <= line_items.len(),
                items == line_items@,
                exact_total(befores(items).take(i as int)) == Some(before@),
                exact_total(cgsts(items).take(i as int)) == Some(cgst@),
                exact_total(sgsts(items).take(i as int)) == Some(sgst@),
                exact_total(igsts(items).take(i as int)) == Some(igst@),
            decreases line_items.len() - i,
        {
            let item = &line_items[i];
            let b = running_total(Ghost(befores(items)), &before, i, &item.line_total_before_gst);
            let c = running_total(Ghost(cgsts(items)), &cgst, i, &item.gst_calculation.cgst_amount);
            let s = running_total(Ghost(sgsts(items)), &sgst, i, &item.gst_calculation.sgst_amount);
            let g = running_total(Ghost(igsts(items)), &igst, i, &item.gst_calculation.igst_amount);
            match (b, c, s, g) {
                (Some(b), Some(c), Some(s), Some(g)) => {
                    before = b;
                    cgst = c;
                    sgst = s;
                    igst = g;
                },
                _ => {
                    return Err(GstError::Calculation(out_of_range.to_string()));
                },
            }
            i += 1;
        }
        proof {
            assert(befores(items).take(i as int) =~= befores(items));
            assert(cgsts(items).take(i as int) =~= cgsts(items));
            assert(sgsts(items).take(i as int) =~= sgsts(items));
            assert(igsts(items).take(i as int) =~= igsts(items));
        }
        let total_gst = match cgst.checked_add(&sgst) {
            Some(t) => match t.checked_add(&igst) {
                Some(u) => u,
                None => {
                    return Err(GstError::Calculation(out_of_range.to_string()));
                },
            },
            None => {
                return Err(GstError::Calculation(out_of_range.to_string()));
            },
        };
        let grand_total = match before.checked_add(&total_gst) {
            Some(t) => t,
            None => {
                return Err(GstError::Calculation(out_of_range.to_string()));
            },
        };
        Ok(
            GstInvoice {
                line_items,
                total_before_gst: before,
                total_cgst: cgst,
                total_sgst: sgst,
                total_igst: igst,
                total_gst,
                grand_total,
            },
        )
    }

    /// Adds a line and recomputes the totals; where a total cannot be held
    /// the invoice is left as it was.
    pub fn add_line_item(&mut self, line_item: GstLineItem) -> (r: Result<(), GstError>)
        ensures
            r is Ok == invoice_fits(old(self).line_items@.push(line_item)),
            r is Ok ==> totals_of(*final(self), old(self).line_items@.push(line_item)),
            r is Err ==> *final(self) == *old(self),
    {
        let mut items: Vec<GstLineItem> = Vec::new();
        let mut i: usize = 0;
        while i < self.line_items.len()
            invariant
                i <= self.line_items.len(),
                items@ == self.line_items@.take(i as int),
            decreases self.line_items.len() - i,
        {
            items.push(self.line_items[i].clone());
            i += 1;
            proof {
                assert(items@ =~= self.line_items@.take(i as int));
            }
        }
        proof {
            assert(items@ =~= self.line_items@);
        }
        items.push(line_item);
        let invoice = GstInvoice::new(items)?;
        *self = invoice;
        Ok(())
    }
}

} // verus!
