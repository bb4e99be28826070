use accounting_core::calendar::Date;
use accounting_core::chart::StandardChartOfAccounts;
use accounting_core::decimal::Decimal;
use accounting_core::reports::{classify_cash_flow, CashFlowActivity};
use accounting_core::storage::MemoryStorage;
use accounting_core::transaction::TransactionBuilder;
use accounting_core::types::{Account, AccountType, Entry, EntryType, LedgerError, Transaction};
use accounting_core::validation::{
    validate_account_id, validate_account_name, validate_positive_amount,
    validate_transaction_description,
};

fn d(n: i64) -> Decimal {
    Decimal::from_int(n)
}

fn day(y: i32, m: u32, dd: u32) -> Date {
    Date::from_ymd_opt(y, m, dd).unwrap()
}

#[test]
fn one_entry_is_not_enough() {
    let r = TransactionBuilder::new("t".to_string(), day(2024, 1, 1), "One".to_string())
        .debit("cash".to_string(), d(5), None)
        .build();
    assert!(matches!(r, Err(LedgerError::InvalidTransaction(_))));
    let empty = Transaction::new("e".to_string(), day(2024, 1, 1), "None".to_string(), None);
    assert!(matches!(empty.validate(), Err(LedgerError::InvalidTransaction(_))));
}

#[test]
fn non_positive_amounts_are_rejected() {
    let zero = TransactionBuilder::new("t".to_string(), day(2024, 1, 1), "Zero".to_string())
        .debit("cash".to_string(), d(0), None)
        .credit("sales".to_string(), d(0), None)
        .build();
    assert!(zero.is_err());
    let negative = TransactionBuilder::new("t".to_string(), day(2024, 1, 1), "Neg".to_string())
        .entry(Entry::new("cash".to_string(), EntryType::Debit, d(-5), None))
        .entry(Entry::new("sales".to_string(), EntryType::Credit, d(-5), None))
        .build();
    assert!(negative.is_err());
}

#[test]
fn balanced_totals_are_reported() {
    let t = TransactionBuilder::new("t".to_string(), day(2024, 1, 1), "Split".to_string())
        .debit("cash".to_string(), d(70), None)
        .debit("bank".to_string(), d(30), None)
        .credit("sales".to_string(), d(100), None)
        .reference("INV-7".to_string())
        .metadata("channel".to_string(), "web".to_string())
        .build()
        .unwrap();
    assert_eq!(t.total_debits(), Some(d(100)));
    assert_eq!(t.total_credits(), Some(d(100)));
    assert!(t.is_balanced());
    assert_eq!(t.reference, Some("INV-7".to_string()));
    assert_eq!(t.metadata, vec![("channel".to_string(), "web".to_string())]);
}

#[test]
fn account_id_rules() {
    assert!(validate_account_id("cash-01_main").is_ok());
    assert!(validate_account_id("café").is_ok());
    assert!(validate_account_id("").is_err());
    assert!(validate_account_id("   ").is_err());
    assert!(validate_account_id("a€b").is_err());
    assert!(validate_account_id("has space").is_err());
    assert!(validate_account_id(&"x".repeat(50)).is_ok());
    assert!(validate_account_id(&"x".repeat(51)).is_err());
}

#[test]
fn name_and_description_rules() {
    assert!(validate_account_name("Cash").is_ok());
    assert!(validate_account_name("\u{3000}\u{2003}").is_err());
    assert!(validate_account_name(&"n".repeat(101)).is_err());
    assert!(validate_transaction_description("Sale").is_ok());
    assert!(validate_transaction_description(" \t\n").is_err());
    assert!(validate_transaction_description(&"d".repeat(501)).is_err());
    assert!(validate_positive_amount(&Decimal::from_units(1)).is_ok());
    assert!(matches!(
        validate_positive_amount(&d(0)),
        Err(LedgerError::Validation(_))
    ));
}

#[test]
fn calendar_dates() {
    assert!(Date::from_ymd_opt(2024, 2, 29).is_some());
    assert!(Date::from_ymd_opt(2023, 2, 29).is_none());
    assert!(Date::from_ymd_opt(2024, 13, 1).is_none());
    assert!(Date::from_ymd_opt(2024, 4, 31).is_none());
    assert!(day(2024, 1, 31).is_on_or_before(&day(2024, 2, 1)));
    assert!(!day(2024, 2, 1).is_on_or_before(&day(2024, 1, 31)));
}

#[test]
fn decimal_text_and_arithmetic() {
    assert_eq!(d(1180).to_text(), "1180");
    assert_eq!(Decimal::from_units(-2_500_000).to_text(), "-2.5");
    assert_eq!(d(0).to_text(), "0");
    assert_eq!(d(7).checked_add(&d(5)), Some(d(12)));
    assert_eq!(d(7).checked_sub(&d(9)), Some(d(-2)));
    assert_eq!(Decimal::from_units(i128::MAX).checked_add(&Decimal::from_units(1)), None);
    assert_eq!(Decimal::from_units(i128::MIN).checked_neg(), None);
}

#[test]
fn account_hierarchy_paths() {
    let mut chart = StandardChartOfAccounts::new(MemoryStorage::new());
    chart
        .add_account(Account::new("assets".to_string(), "Assets".to_string(), AccountType::Asset, None))
        .unwrap();
    chart
        .add_account(Account::new(
            "current".to_string(),
            "Current".to_string(),
            AccountType::Asset,
            Some("assets".to_string()),
        ))
        .unwrap();
    chart
        .add_account(Account::new(
            "cash".to_string(),
            "Cash".to_string(),
            AccountType::Asset,
            Some("current".to_string()),
        ))
        .unwrap();
    let path = chart.get_account_path("cash").unwrap();
    let ids: Vec<&str> = path.iter().map(|a| a.id.as_str()).collect();
    assert_eq!(ids, vec!["assets", "current", "cash"]);
    let children = chart.get_child_accounts("assets").unwrap();
    assert_eq!(children.len(), 1);
    assert_eq!(children[0].id, "current");
    assert_eq!(chart.get_chart().unwrap().len(), 3);
    assert!(matches!(
        chart.get_account_path("nope"),
        Err(LedgerError::AccountNotFound(_))
    ));
    chart
        .add_account(Account::new(
            "loop_a".to_string(),
            "A".to_string(),
            AccountType::Asset,
            Some("loop_b".to_string()),
        ))
        .unwrap();
    chart
        .add_account(Account::new(
            "loop_b".to_string(),
            "B".to_string(),
            AccountType::Asset,
            Some("loop_a".to_string()),
        ))
        .unwrap();
    assert!(matches!(
        chart.get_account_path("loop_a"),
        Err(LedgerError::Validation(_))
    ));
}

#[test]
fn standard_chart_twice_fails_on_first_duplicate() {
    let mut ledger = accounting_core::ledger::Ledger::new(MemoryStorage::new());
    let created = ledger.setup_standard_chart_of_accounts().unwrap();
    assert_eq!(created.len(), 12);
    assert_eq!(created[0].0, "cash");
    assert_eq!(created[0].1.id, "1000");
    assert_eq!(created[11].1.name, "Utilities Expense");
    assert!(matches!(
        ledger.setup_standard_chart_of_accounts(),
        Err(LedgerError::Validation(_))
    ));
    assert_eq!(ledger.list_accounts().unwrap().len(), 12);
}

#[test]
fn path_names_the_missing_link() {
    let mut chart = StandardChartOfAccounts::new(MemoryStorage::new());
    chart
        .add_account(Account::new(
            "cash".to_string(),
            "Cash".to_string(),
            AccountType::Asset,
            Some("gone".to_string()),
        ))
        .unwrap();
    match chart.get_account_path("cash") {
        Err(LedgerError::AccountNotFound(id)) => assert_eq!(id, "gone"),
        other => panic!("unexpected {:?}", other.map(|p| p.len())),
    }
}

#[test]
fn cash_flow_classifier_reads_lowercased_description() {
    let asset = vec![
        Entry::new("fixed_asset".to_string(), EntryType::Debit, d(5), None),
        Entry::new("bank".to_string(), EntryType::Credit, d(5), None),
    ];
    assert_eq!(classify_cash_flow(&asset, "new equipment"), CashFlowActivity::Investing);
    assert_eq!(classify_cash_flow(&asset, "New Equipment"), CashFlowActivity::Operating);
    let loan = vec![Entry::new("loan_payable".to_string(), EntryType::Credit, d(5), None)];
    assert_eq!(classify_cash_flow(&loan, "equipment"), CashFlowActivity::Financing);
}
