use accounting_core::exact::ExactDecimal;
use accounting_core::gst::{
    GstCalculation, GstCalculator, GstCategory, GstError, GstInvoice, GstLineItem, GstRate,
};

fn d(n: i64) -> ExactDecimal {
    ExactDecimal::from_int(n)
}

#[test]
fn test_gst_rate_intra_state() {
    let rate = GstRate::intra_state(d(18));
    assert_eq!(rate.total_rate, d(18));
    assert_eq!(rate.cgst_rate, d(9));
    assert_eq!(rate.sgst_rate, d(9));
    assert_eq!(rate.igst_rate, d(0));
    assert!(rate.validate().is_ok());
}

#[test]
fn test_gst_rate_inter_state() {
    let rate = GstRate::inter_state(d(18));
    assert_eq!(rate.total_rate, d(18));
    assert_eq!(rate.cgst_rate, d(0));
    assert_eq!(rate.sgst_rate, d(0));
    assert_eq!(rate.igst_rate, d(18));
    assert!(rate.validate().is_ok());
}

#[test]
fn test_gst_calculation() {
    let base_amount = d(1000);
    let gst_rate = GstRate::intra_state(d(18));

    let calculation = GstCalculation::calculate(base_amount, gst_rate).unwrap();

    assert_eq!(calculation.base_amount, d(1000));
    assert_eq!(calculation.cgst_amount, d(90));
    assert_eq!(calculation.sgst_amount, d(90));
    assert_eq!(calculation.total_gst_amount, d(180));
    assert_eq!(calculation.total_amount, d(1180));
}

#[test]
fn test_gst_reverse_calculation() {
    let total_amount = d(1180);
    let gst_rate = GstRate::intra_state(d(18));

    let calculation = GstCalculation::reverse_calculate(total_amount, gst_rate).unwrap();

    assert_eq!(calculation.total_amount, d(1180));
    assert_eq!(calculation.total_gst_amount, d(180));
    assert_eq!(calculation.base_amount, d(1000));
}

#[test]
fn test_gst_calculator() {
    let calculator = GstCalculator::new(false);

    let calculation = calculator
        .calculate_by_category(d(1000), GstCategory::Higher, None)
        .unwrap();

    assert_eq!(calculation.total_gst_amount, d(180));
    assert_eq!(calculation.cgst_amount, d(90));
    assert_eq!(calculation.sgst_amount, d(90));
}

#[test]
fn test_gst_invoice() {
    let gst_rate = GstRate::intra_state(d(18));

    let line_item1 = GstLineItem::new("Product A".to_string(), d(2), d(500), gst_rate).unwrap();
    let line_item2 = GstLineItem::new("Product B".to_string(), d(1), d(300), gst_rate).unwrap();

    let invoice = GstInvoice::new(vec![line_item1, line_item2]).unwrap();

    assert_eq!(invoice.total_before_gst, d(1300));
    assert_eq!(invoice.total_gst, d(234));
    assert_eq!(invoice.grand_total, d(1534));
}

#[test]
fn test_gst_calculations() {
    let intra_calc = GstCalculator::new(false)
        .calculate_by_category(d(1000), GstCategory::Higher, None)
        .unwrap();

    assert_eq!(intra_calc.base_amount, d(1000));
    assert_eq!(intra_calc.cgst_amount, d(90));
    assert_eq!(intra_calc.sgst_amount, d(90));
    assert_eq!(intra_calc.igst_amount, d(0));
    assert_eq!(intra_calc.total_gst_amount, d(180));

    let inter_calc = GstCalculator::new(true)
        .calculate_by_category(d(1000), GstCategory::Higher, None)
        .unwrap();

    assert_eq!(inter_calc.base_amount, d(1000));
    assert_eq!(inter_calc.cgst_amount, d(0));
    assert_eq!(inter_calc.sgst_amount, d(0));
    assert_eq!(inter_calc.igst_amount, d(180));
    assert_eq!(inter_calc.total_gst_amount, d(180));
}

#[test]
fn intra_state_split_of_odd_rate_has_fractional_parts() {
    let rate = GstCategory::Reduced.intra_state_rate();
    assert_eq!(rate.cgst_rate, ExactDecimal::new(25, 1));
    assert_eq!(rate.sgst_rate, ExactDecimal::new(25, 1));
    let calc = GstCalculation::calculate(d(1000), rate).unwrap();
    assert_eq!(calc.cgst_amount, d(25));
    assert_eq!(calc.total_amount, d(1050));
}

#[test]
fn category_rates() {
    assert_eq!(GstCategory::Essential.rate(), d(0));
    assert_eq!(GstCategory::Reduced.rate(), d(5));
    assert_eq!(GstCategory::Standard.rate(), d(12));
    assert_eq!(GstCategory::Higher.rate(), d(18));
    assert_eq!(GstCategory::Luxury.rate(), d(28));
}

#[test]
fn inconsistent_rate_is_rejected() {
    let rate = GstRate {
        total_rate: d(18),
        cgst_rate: d(9),
        sgst_rate: d(8),
        igst_rate: d(0),
    };
    assert!(matches!(rate.validate(), Err(GstError::InvalidRate(_))));
    assert!(matches!(
        GstCalculation::calculate(d(100), rate),
        Err(GstError::InvalidRate(_))
    ));
    let mixed = GstRate {
        total_rate: d(18),
        cgst_rate: d(4),
        sgst_rate: d(4),
        igst_rate: d(10),
    };
    assert!(matches!(mixed.validate(), Err(GstError::InvalidRate(_))));
}

#[test]
fn custom_rates_by_product() {
    let mut calculator = GstCalculator::new(false);
    assert!(matches!(
        calculator.calculate_by_product(d(100), "P-1"),
        Err(GstError::ProductNotFound(_))
    ));
    calculator
        .set_custom_rate("P-1".to_string(), GstRate::inter_state(d(12)))
        .unwrap();
    let calc = calculator.calculate_by_product(d(100), "P-1").unwrap();
    assert_eq!(calc.igst_amount, d(12));
    calculator
        .set_custom_rate("P-1".to_string(), GstRate::inter_state(d(28)))
        .unwrap();
    let calc = calculator.calculate_by_product(d(100), "P-1").unwrap();
    assert_eq!(calc.igst_amount, d(28));
    let bad = GstRate {
        total_rate: d(5),
        cgst_rate: d(1),
        sgst_rate: d(1),
        igst_rate: d(0),
    };
    assert!(calculator.set_custom_rate("P-2".to_string(), bad).is_err());
}

#[test]
fn overflowing_amount_is_a_calculation_error() {
    let huge = ExactDecimal::new(i128::MAX / 2, 0);
    let rate = GstRate::inter_state(d(18));
    assert!(matches!(
        GstCalculation::calculate(huge, rate),
        Err(GstError::Calculation(_))
    ));
}

#[test]
fn reverse_calculation_by_category() {
    let calculator = GstCalculator::new(true);
    let calc = calculator
        .reverse_calculate_by_category(d(1120), GstCategory::Standard, None)
        .unwrap();
    assert_eq!(calc.base_amount, d(1000));
    assert_eq!(calc.igst_amount, d(120));
}

#[test]
fn invoice_add_line_item_updates_totals() {
    let rate = GstRate::intra_state(d(18));
    let mut invoice = GstInvoice::new(vec![]).unwrap();
    assert_eq!(invoice.grand_total, d(0));
    invoice
        .add_line_item(GstLineItem::new("A".to_string(), d(1), d(10000), rate).unwrap())
        .unwrap();
    assert_eq!(invoice.total_before_gst, d(10000));
    assert_eq!(invoice.total_cgst, d(900));
    assert_eq!(invoice.total_sgst, d(900));
    assert_eq!(invoice.total_gst, d(1800));
    assert_eq!(invoice.grand_total, d(11800));
    assert_eq!(invoice.line_items.len(), 1);
}

#[test]
fn gst_parts_are_exact() {
    let base = ExactDecimal::new(1_234_567, 6);
    let calc = GstCalculation::calculate(base, GstRate::intra_state(d(18))).unwrap();
    assert_eq!(calc.cgst_amount, ExactDecimal::new(11_111_103, 8));
    assert_eq!(calc.sgst_amount, ExactDecimal::new(11_111_103, 8));
    assert_eq!(calc.total_gst_amount, ExactDecimal::new(22_222_206, 8));
    assert_eq!(calc.total_amount, ExactDecimal::new(145_678_906, 8));
    let hundred = d(100);
    assert_eq!(
        calc.cgst_amount.checked_mul(&hundred).unwrap(),
        base.checked_mul(&ExactDecimal::new(9, 0)).unwrap()
    );
}

#[test]
fn reverse_calculation_rounds_half_to_even() {
    let calc = GstCalculation::reverse_calculate(d(1000), GstRate::inter_state(d(18))).unwrap();
    assert_eq!(calc.base_amount, ExactDecimal::new(847_457_627_118_644, 12));
}

#[test]
fn exact_values_compare_by_value() {
    assert_eq!(ExactDecimal::new(150, 2), ExactDecimal::new(15, 1));
    assert_ne!(ExactDecimal::new(151, 2), ExactDecimal::new(15, 1));
    assert_eq!(ExactDecimal::new(11800, 0).to_decimal(), Some(accounting_core::Decimal::from_int(11800)));
    assert_eq!(ExactDecimal::new(1, 7).to_decimal(), None);
}
