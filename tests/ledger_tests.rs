use accounting_core::calendar::Date;
use accounting_core::decimal::Decimal;
use accounting_core::exact::ExactDecimal;
use accounting_core::gst::{GstCategory, GstInvoice, GstLineItem};
use accounting_core::ledger::Ledger;
use accounting_core::patterns;
use accounting_core::storage::MemoryStorage;
use accounting_core::transaction::{InvoiceWithGstParams, TransactionBuilder};
use accounting_core::types::{Account, AccountType, LedgerError};
use accounting_core::validation::{EnhancedAccountValidator, EnhancedTransactionValidator};

fn d(n: i64) -> Decimal {
    Decimal::from_int(n)
}

fn day(y: i32, m: u32, dd: u32) -> Date {
    Date::from_ymd_opt(y, m, dd).unwrap()
}

fn find<'a>(accounts: &'a [(String, Account)], key: &str) -> Option<&'a Account> {
    accounts.iter().find(|(k, _)| k == key).map(|(_, a)| a)
}

#[test]
fn test_ledger_basic_operations() {
    let storage = MemoryStorage::new();
    let mut ledger = Ledger::new(storage);

    let cash_account = ledger
        .create_account("cash".to_string(), "Cash".to_string(), AccountType::Asset, None)
        .unwrap();
    let revenue_account = ledger
        .create_account("revenue".to_string(), "Revenue".to_string(), AccountType::Income, None)
        .unwrap();

    let transaction = patterns::create_sales_transaction(
        "txn1".to_string(),
        day(2024, 1, 1),
        "Sale of goods".to_string(),
        cash_account.id.clone(),
        revenue_account.id.clone(),
        d(1000),
    )
    .unwrap();

    ledger.record_transaction(transaction).unwrap();

    let cash_balance = ledger.get_account_balance(&cash_account.id, None).unwrap();
    let revenue_balance = ledger.get_account_balance(&revenue_account.id, None).unwrap();

    assert_eq!(cash_balance, d(1000));
    assert_eq!(revenue_balance, d(1000));

    let balance_sheet = ledger.generate_balance_sheet(day(2024, 1, 1)).unwrap();

    assert_eq!(balance_sheet.total_assets, d(1000));
}

#[test]
fn test_complete_accounting_workflow() {
    let storage = MemoryStorage::new();
    let mut ledger = Ledger::new(storage);

    let accounts = ledger.setup_standard_chart_of_accounts().unwrap();

    assert!(find(&accounts, "cash").is_some());
    assert!(find(&accounts, "sales_revenue").is_some());
    assert!(find(&accounts, "owners_equity").is_some());
    let cash = find(&accounts, "cash").unwrap().id.clone();
    let equity = find(&accounts, "owners_equity").unwrap().id.clone();
    let sales = find(&accounts, "sales_revenue").unwrap().id.clone();

    let investment = patterns::create_owner_investment(
        "invest1".to_string(),
        day(2024, 1, 1),
        "Initial investment".to_string(),
        cash.clone(),
        equity,
        d(100000),
    )
    .unwrap();
    ledger.record_transaction(investment).unwrap();

    let cash_balance = ledger.get_account_balance(&cash, None).unwrap();
    assert_eq!(cash_balance, d(100000));

    let sale = patterns::create_sales_transaction(
        "sale1".to_string(),
        day(2024, 1, 5),
        "First sale".to_string(),
        cash.clone(),
        sales,
        d(15000),
    )
    .unwrap();
    ledger.record_transaction(sale).unwrap();

    let updated_cash_balance = ledger.get_account_balance(&cash, None).unwrap();
    assert_eq!(updated_cash_balance, d(115000));

    let trial_balance = ledger.get_trial_balance(day(2024, 1, 31)).unwrap();
    assert!(trial_balance.is_balanced);

    let balance_sheet = ledger.generate_balance_sheet(day(2024, 1, 31)).unwrap();
    assert!(balance_sheet.is_balanced);
    assert_eq!(balance_sheet.total_assets, d(115000));

    let integrity_report = ledger.validate_integrity(day(2024, 1, 31)).unwrap();
    assert!(integrity_report.is_valid);
}

#[test]
fn test_gst_invoice_with_ledger_integration() {
    let storage = MemoryStorage::new();
    let mut ledger = Ledger::new(storage);

    let cash_account = ledger
        .create_account("cash".to_string(), "Cash".to_string(), AccountType::Asset, None)
        .unwrap();
    let revenue_account = ledger
        .create_account("revenue".to_string(), "Revenue".to_string(), AccountType::Income, None)
        .unwrap();
    let gst_payable_account = ledger
        .create_account(
            "gst_payable".to_string(),
            "GST Payable".to_string(),
            AccountType::Liability,
            None,
        )
        .unwrap();

    let line_item = GstLineItem::new(
        "Consulting Service".to_string(),
        ExactDecimal::from_int(1),
        ExactDecimal::from_int(10000),
        GstCategory::Higher.intra_state_rate(),
    )
    .unwrap();

    let invoice = GstInvoice::new(vec![line_item]).unwrap();

    let invoice_transaction = TransactionBuilder::new(
        "inv001".to_string(),
        day(2024, 2, 1),
        "Invoice with GST".to_string(),
    )
    .debit(cash_account.id.clone(), invoice.grand_total.to_decimal().unwrap(), None)
    .credit(
        revenue_account.id.clone(),
        invoice.total_before_gst.to_decimal().unwrap(),
        None,
    )
    .credit(gst_payable_account.id.clone(), invoice.total_gst.to_decimal().unwrap(), None)
    .build()
    .unwrap();

    ledger.record_transaction(invoice_transaction).unwrap();

    let cash_balance = ledger.get_account_balance(&cash_account.id, None).unwrap();
    let revenue_balance = ledger.get_account_balance(&revenue_account.id, None).unwrap();
    let gst_balance = ledger.get_account_balance(&gst_payable_account.id, None).unwrap();

    assert_eq!(cash_balance, d(11800));
    assert_eq!(revenue_balance, d(10000));
    assert_eq!(gst_balance, d(1800));
}

#[test]
fn test_transaction_validation() {
    let storage = MemoryStorage::new();
    let mut ledger = Ledger::with_validators(
        storage,
        EnhancedAccountValidator,
        EnhancedTransactionValidator,
    );

    let cash_account = ledger
        .create_account("cash".to_string(), "Cash".to_string(), AccountType::Asset, None)
        .unwrap();
    let revenue_account = ledger
        .create_account("revenue".to_string(), "Revenue".to_string(), AccountType::Income, None)
        .unwrap();

    let valid_transaction = TransactionBuilder::new(
        "valid1".to_string(),
        day(2024, 1, 1),
        "Valid transaction".to_string(),
    )
    .debit(cash_account.id.clone(), d(1000), None)
    .credit(revenue_account.id.clone(), d(1000), None)
    .build()
    .unwrap();

    let result = ledger.record_transaction(valid_transaction);
    assert!(result.is_ok());

    let unbalanced_transaction = TransactionBuilder::new(
        "invalid1".to_string(),
        day(2024, 1, 1),
        "Unbalanced transaction".to_string(),
    )
    .debit(cash_account.id.clone(), d(1000), None)
    .credit(revenue_account.id.clone(), d(500), None)
    .build();

    assert!(unbalanced_transaction.is_err());
}

#[test]
fn test_account_hierarchy() {
    let storage = MemoryStorage::new();
    let mut ledger = Ledger::new(storage);

    let parent_account = ledger
        .create_account(
            "current_assets".to_string(),
            "Current Assets".to_string(),
            AccountType::Asset,
            None,
        )
        .unwrap();

    let child_account = ledger
        .create_account(
            "cash".to_string(),
            "Cash".to_string(),
            AccountType::Asset,
            Some(parent_account.id.clone()),
        )
        .unwrap();

    assert_eq!(child_account.parent_id, Some(parent_account.id));

    let asset_accounts = ledger.list_accounts_by_type(AccountType::Asset).unwrap();
    assert_eq!(asset_accounts.len(), 2);
}

#[test]
fn test_date_range_filtering() {
    let storage = MemoryStorage::new();
    let mut ledger = Ledger::new(storage);

    let cash_account = ledger
        .create_account("cash".to_string(), "Cash".to_string(), AccountType::Asset, None)
        .unwrap();
    let revenue_account = ledger
        .create_account("revenue".to_string(), "Revenue".to_string(), AccountType::Income, None)
        .unwrap();

    let txn1 = TransactionBuilder::new(
        "txn1".to_string(),
        day(2024, 1, 1),
        "January transaction".to_string(),
    )
    .debit(cash_account.id.clone(), d(1000), None)
    .credit(revenue_account.id.clone(), d(1000), None)
    .build()
    .unwrap();

    let txn2 = TransactionBuilder::new(
        "txn2".to_string(),
        day(2024, 2, 1),
        "February transaction".to_string(),
    )
    .debit(cash_account.id.clone(), d(2000), None)
    .credit(revenue_account.id.clone(), d(2000), None)
    .build()
    .unwrap();

    ledger.record_transaction(txn1).unwrap();
    ledger.record_transaction(txn2).unwrap();

    let jan_transactions = ledger
        .get_transactions(Some(day(2024, 1, 1)), Some(day(2024, 1, 31)))
        .unwrap();

    assert_eq!(jan_transactions.len(), 1);
    assert_eq!(jan_transactions[0].id, "txn1");

    let jan_balance = ledger
        .get_account_balance(&cash_account.id, Some(day(2024, 1, 31)))
        .unwrap();
    let feb_balance = ledger
        .get_account_balance(&cash_account.id, Some(day(2024, 2, 28)))
        .unwrap();

    assert_eq!(jan_balance, d(1000));
    assert_eq!(feb_balance, d(3000));
}

#[test]
fn test_memory_storage_operations() {
    let mut storage = MemoryStorage::new();

    let account = Account::new(
        "test1".to_string(),
        "Test Account".to_string(),
        AccountType::Asset,
        None,
    );

    storage.save_account(&account).unwrap();

    let retrieved = storage.get_account("test1").unwrap();
    assert!(retrieved.is_some());
    assert_eq!(retrieved.unwrap().name, "Test Account");

    let all_accounts = storage.list_accounts(None).unwrap();
    assert_eq!(all_accounts.len(), 1);

    let transaction = TransactionBuilder::new(
        "txn1".to_string(),
        day(2024, 1, 1),
        "Test transaction".to_string(),
    )
    .debit("test1".to_string(), d(100), None)
    .credit("test2".to_string(), d(100), None)
    .build()
    .unwrap();

    storage.save_transaction(&transaction).unwrap();

    let retrieved_txn = storage.get_transaction("txn1").unwrap();
    assert!(retrieved_txn.is_some());
    assert_eq!(retrieved_txn.unwrap().description, "Test transaction");
}

#[test]
fn cash_and_equity_scenario() {
    let mut ledger = Ledger::new(MemoryStorage::new());
    ledger
        .create_account("cash".to_string(), "Cash".to_string(), AccountType::Asset, None)
        .unwrap();
    ledger
        .create_account("equity".to_string(), "Equity".to_string(), AccountType::Equity, None)
        .unwrap();
    let t = TransactionBuilder::new("t1".to_string(), day(2024, 3, 1), "Capital".to_string())
        .debit("cash".to_string(), d(50000), None)
        .credit("equity".to_string(), d(50000), None)
        .build()
        .unwrap();
    ledger.record_transaction(t).unwrap();
    assert_eq!(ledger.get_account_balance("cash", None).unwrap(), d(50000));
    assert_eq!(ledger.get_account_balance("equity", None).unwrap(), d(50000));
    let tb = ledger.get_trial_balance(day(2024, 3, 31)).unwrap();
    assert!(tb.is_balanced);
    assert_eq!(tb.total_debits, d(50000));
    assert_eq!(tb.total_credits, d(50000));
}

#[test]
fn sale_with_intra_state_tax_scenario() {
    let mut ledger = Ledger::new(MemoryStorage::new());
    ledger
        .create_account("receivable".to_string(), "Receivable".to_string(), AccountType::Asset, None)
        .unwrap();
    ledger
        .create_account("revenue".to_string(), "Revenue".to_string(), AccountType::Income, None)
        .unwrap();
    ledger
        .create_account(
            "tax_payable".to_string(),
            "Tax Payable".to_string(),
            AccountType::Liability,
            None,
        )
        .unwrap();
    let calc = accounting_core::gst::GstCalculation::calculate(
        ExactDecimal::from_int(10000),
        accounting_core::gst::GstRate::intra_state(ExactDecimal::from_int(18)),
    )
    .unwrap();
    assert_eq!(calc.cgst_amount, ExactDecimal::from_int(900));
    assert_eq!(calc.sgst_amount, ExactDecimal::from_int(900));
    let t = patterns::create_invoice_with_gst(InvoiceWithGstParams {
        id: "s1".to_string(),
        date: day(2024, 4, 1),
        description: "Sale".to_string(),
        receivables_account_id: "receivable".to_string(),
        revenue_account_id: "revenue".to_string(),
        gst_payable_account_id: "tax_payable".to_string(),
        base_amount: d(10000),
        gst_amount: calc.total_gst_amount.to_decimal().unwrap(),
    })
    .unwrap();
    assert_eq!(t.entries[0].amount, d(11800));
    ledger.record_transaction(t).unwrap();
    assert_eq!(ledger.get_account_balance("receivable", None).unwrap(), d(11800));
    assert_eq!(ledger.get_account_balance("revenue", None).unwrap(), d(10000));
    assert_eq!(ledger.get_account_balance("tax_payable", None).unwrap(), d(1800));
}

#[test]
fn record_rejects_unknown_account_and_changes_nothing() {
    let mut ledger = Ledger::new(MemoryStorage::new());
    ledger
        .create_account("cash".to_string(), "Cash".to_string(), AccountType::Asset, None)
        .unwrap();
    let t = patterns::create_sales_transaction(
        "t1".to_string(),
        day(2024, 1, 1),
        "Sale".to_string(),
        "cash".to_string(),
        "missing".to_string(),
        d(10),
    )
    .unwrap();
    let r = ledger.record_transaction(t);
    assert!(matches!(r, Err(LedgerError::AccountNotFound(_))));
    assert_eq!(ledger.get_account_balance("cash", None).unwrap(), d(0));
    assert!(ledger.get_transaction("t1").unwrap().is_none());
}

#[test]
fn duplicate_account_and_missing_parent_are_rejected() {
    let mut ledger = Ledger::new(MemoryStorage::new());
    ledger
        .create_account("cash".to_string(), "Cash".to_string(), AccountType::Asset, None)
        .unwrap();
    let again = ledger.create_account("cash".to_string(), "Cash".to_string(), AccountType::Asset, None);
    assert!(matches!(again, Err(LedgerError::Validation(_))));
    let orphan = ledger.create_account(
        "bank".to_string(),
        "Bank".to_string(),
        AccountType::Asset,
        Some("nowhere".to_string()),
    );
    assert!(matches!(orphan, Err(LedgerError::Validation(_))));
    let blank = ledger.create_account("  ".to_string(), "Name".to_string(), AccountType::Asset, None);
    assert!(matches!(blank, Err(LedgerError::Validation(_))));
    assert_eq!(ledger.list_accounts().unwrap().len(), 1);
}

#[test]
fn delete_after_record_restores_balances() {
    let mut ledger = Ledger::new(MemoryStorage::new());
    ledger
        .create_account("cash".to_string(), "Cash".to_string(), AccountType::Asset, None)
        .unwrap();
    ledger
        .create_account("loan".to_string(), "Loan".to_string(), AccountType::Liability, None)
        .unwrap();
    let first = patterns::create_loan_received(
        "l1".to_string(),
        day(2024, 1, 1),
        "Loan".to_string(),
        "cash".to_string(),
        "loan".to_string(),
        d(700),
    )
    .unwrap();
    ledger.record_transaction(first).unwrap();
    let second = patterns::create_loan_received(
        "l2".to_string(),
        day(2024, 1, 2),
        "Loan".to_string(),
        "cash".to_string(),
        "loan".to_string(),
        d(300),
    )
    .unwrap();
    ledger.record_transaction(second).unwrap();
    assert_eq!(ledger.get_account_balance("cash", None).unwrap(), d(1000));
    ledger.delete_transaction("l2").unwrap();
    assert_eq!(ledger.get_account_balance("cash", None).unwrap(), d(700));
    assert_eq!(ledger.get_account_balance("loan", None).unwrap(), d(700));
    assert!(matches!(
        ledger.delete_transaction("l2"),
        Err(LedgerError::TransactionNotFound(_))
    ));
}

#[test]
fn update_with_identical_copy_keeps_balances() {
    let mut ledger = Ledger::new(MemoryStorage::new());
    ledger
        .create_account("cash".to_string(), "Cash".to_string(), AccountType::Asset, None)
        .unwrap();
    ledger
        .create_account("rent".to_string(), "Rent".to_string(), AccountType::Expense, None)
        .unwrap();
    ledger
        .create_account("equity".to_string(), "Equity".to_string(), AccountType::Equity, None)
        .unwrap();
    let funding = patterns::create_owner_investment(
        "f".to_string(),
        day(2024, 1, 1),
        "Funding".to_string(),
        "cash".to_string(),
        "equity".to_string(),
        d(5000),
    )
    .unwrap();
    ledger.record_transaction(funding).unwrap();
    let rent = patterns::create_expense_payment(
        "r".to_string(),
        day(2024, 1, 2),
        "Rent".to_string(),
        "rent".to_string(),
        "cash".to_string(),
        d(1200),
    )
    .unwrap();
    ledger.record_transaction(rent.clone()).unwrap();
    ledger.update_transaction(&rent).unwrap();
    assert_eq!(ledger.get_account_balance("cash", None).unwrap(), d(3800));
    assert_eq!(ledger.get_account_balance("rent", None).unwrap(), d(1200));

    let bigger = patterns::create_expense_payment(
        "r".to_string(),
        day(2024, 1, 2),
        "Rent".to_string(),
        "rent".to_string(),
        "cash".to_string(),
        d(1500),
    )
    .unwrap();
    ledger.update_transaction(&bigger).unwrap();
    assert_eq!(ledger.get_account_balance("cash", None).unwrap(), d(3500));
    assert_eq!(ledger.get_account_balance("rent", None).unwrap(), d(1500));
    let missing = patterns::create_expense_payment(
        "zz".to_string(),
        day(2024, 1, 2),
        "Rent".to_string(),
        "rent".to_string(),
        "cash".to_string(),
        d(1),
    )
    .unwrap();
    assert!(matches!(
        ledger.update_transaction(&missing),
        Err(LedgerError::TransactionNotFound(_))
    ));
}

#[test]
fn replayed_balance_matches_running_balance() {
    let mut ledger = Ledger::new(MemoryStorage::new());
    ledger
        .create_account("cash".to_string(), "Cash".to_string(), AccountType::Asset, None)
        .unwrap();
    ledger
        .create_account("sales".to_string(), "Sales".to_string(), AccountType::Income, None)
        .unwrap();
    for (i, amount) in [100, 250, 75].iter().enumerate() {
        let t = patterns::create_sales_transaction(
            format!("s{}", i),
            day(2024, 5, 1 + i as u32),
            "Sale".to_string(),
            "cash".to_string(),
            "sales".to_string(),
            d(*amount),
        )
        .unwrap();
        ledger.record_transaction(t).unwrap();
    }
    ledger.delete_transaction("s1").unwrap();
    let live = ledger.get_account_balance("cash", None).unwrap();
    let replayed = ledger.get_account_balance("cash", Some(day(2024, 12, 31))).unwrap();
    assert_eq!(live, d(175));
    assert_eq!(replayed, live);
}

#[test]
fn negative_balance_goes_to_the_other_column() {
    let mut ledger = Ledger::new(MemoryStorage::new());
    ledger
        .create_account("cash".to_string(), "Cash".to_string(), AccountType::Asset, None)
        .unwrap();
    ledger
        .create_account("sales".to_string(), "Sales".to_string(), AccountType::Income, None)
        .unwrap();
    let refund = TransactionBuilder::new("x".to_string(), day(2024, 1, 1), "Refund".to_string())
        .debit("sales".to_string(), d(40), None)
        .credit("cash".to_string(), d(40), None)
        .build()
        .unwrap();
    ledger.record_transaction(refund).unwrap();
    assert_eq!(ledger.get_account_balance("cash", None).unwrap(), d(-40));
    let tb = ledger.get_trial_balance(day(2024, 1, 1)).unwrap();
    let cash_line = &tb.balances[0];
    assert_eq!(cash_line.debit_balance, None);
    assert_eq!(cash_line.credit_balance, Some(d(40)));
    assert_eq!(tb.balances[1].debit_balance, Some(d(40)));
    assert!(tb.is_balanced);
}

#[test]
fn balance_sheet_folds_net_income_into_equity() {
    let mut ledger = Ledger::new(MemoryStorage::new());
    ledger
        .create_account("cash".to_string(), "Cash".to_string(), AccountType::Asset, None)
        .unwrap();
    ledger
        .create_account("sales".to_string(), "Sales".to_string(), AccountType::Income, None)
        .unwrap();
    ledger
        .create_account("rent".to_string(), "Rent".to_string(), AccountType::Expense, None)
        .unwrap();
    let sale = patterns::create_sales_transaction(
        "s".to_string(),
        day(2024, 1, 3),
        "Sale".to_string(),
        "cash".to_string(),
        "sales".to_string(),
        d(900),
    )
    .unwrap();
    ledger.record_transaction(sale).unwrap();
    let rent = patterns::create_expense_payment(
        "r".to_string(),
        day(2024, 1, 4),
        "Rent".to_string(),
        "rent".to_string(),
        "cash".to_string(),
        d(400),
    )
    .unwrap();
    ledger.record_transaction(rent).unwrap();
    let sheet = ledger.generate_balance_sheet(day(2024, 1, 31)).unwrap();
    assert_eq!(sheet.total_assets, d(500));
    assert_eq!(sheet.equity.len(), 1);
    assert_eq!(sheet.equity[0].account.id, "net_income");
    assert_eq!(sheet.equity[0].credit_balance, Some(d(500)));
    assert_eq!(sheet.total_equity, d(500));
    assert!(sheet.is_balanced);

    let statement = ledger
        .generate_income_statement(day(2024, 1, 1), day(2024, 1, 31))
        .unwrap();
    assert_eq!(statement.total_revenue, d(900));
    assert_eq!(statement.total_expenses, d(400));
    assert_eq!(statement.net_income, d(500));
}

#[test]
fn income_statement_counts_only_its_period() {
    let mut ledger = Ledger::new(MemoryStorage::new());
    ledger
        .create_account("cash".to_string(), "Cash".to_string(), AccountType::Asset, None)
        .unwrap();
    ledger
        .create_account("sales".to_string(), "Sales".to_string(), AccountType::Income, None)
        .unwrap();
    for (id, m, amount) in [("a", 1u32, 100i64), ("b", 2, 250)] {
        let t = patterns::create_sales_transaction(
            id.to_string(),
            day(2024, m, 10),
            "Sale".to_string(),
            "cash".to_string(),
            "sales".to_string(),
            d(amount),
        )
        .unwrap();
        ledger.record_transaction(t).unwrap();
    }
    let feb = ledger
        .generate_income_statement(day(2024, 2, 1), day(2024, 2, 29))
        .unwrap();
    assert_eq!(feb.total_revenue, d(250));
    assert_eq!(feb.net_income, d(250));
}

#[test]
fn cash_flow_classifies_by_words() {
    let mut ledger = Ledger::new(MemoryStorage::new());
    for (id, ty) in [
        ("cash", AccountType::Asset),
        ("loan_payable", AccountType::Liability),
        ("fixed_asset", AccountType::Asset),
        ("sales", AccountType::Income),
    ] {
        ledger.create_account(id.to_string(), id.to_string(), ty, None).unwrap();
    }
    let loan = patterns::create_loan_received(
        "l".to_string(),
        day(2024, 6, 1),
        "Loan".to_string(),
        "cash".to_string(),
        "loan_payable".to_string(),
        d(1000),
    )
    .unwrap();
    let equipment = patterns::create_asset_purchase(
        "e".to_string(),
        day(2024, 6, 2),
        "New EQUIPMENT for shop".to_string(),
        "fixed_asset".to_string(),
        "cash".to_string(),
        d(300),
    )
    .unwrap();
    let sale = patterns::create_sales_transaction(
        "s".to_string(),
        day(2024, 6, 3),
        "Sale".to_string(),
        "cash".to_string(),
        "sales".to_string(),
        d(50),
    )
    .unwrap();
    ledger.record_transaction(loan).unwrap();
    ledger.record_transaction(equipment).unwrap();
    ledger.record_transaction(sale).unwrap();
    let flow = ledger.generate_cash_flow(day(2024, 6, 1), day(2024, 6, 30)).unwrap();
    assert_eq!(flow.financing_activities.len(), 1);
    assert_eq!(flow.investing_activities.len(), 1);
    assert_eq!(flow.operating_activities.len(), 1);
    assert_eq!(flow.net_financing_cash_flow, d(1000));
    assert_eq!(flow.net_investing_cash_flow, d(300));
    assert_eq!(flow.net_operating_cash_flow, d(50));
    assert_eq!(flow.net_cash_flow, d(1350));
}

#[test]
fn integrity_report_names_unbalanced_trial_balance() {
    let mut storage = MemoryStorage::new();
    let cash = Account::new("cash".to_string(), "Cash".to_string(), AccountType::Asset, None);
    storage.save_account(&cash).unwrap();
    let lopsided = TransactionBuilder::new("t".to_string(), day(2024, 1, 1), "One side".to_string())
        .debit("cash".to_string(), Decimal::from_units(1_180_500_000), None)
        .credit("elsewhere".to_string(), Decimal::from_units(1_180_500_000), None)
        .build()
        .unwrap();
    storage.save_transaction(&lopsided).unwrap();
    let ledger = Ledger::new(storage);
    let report = ledger.validate_integrity(day(2024, 1, 31)).unwrap();
    assert!(!report.is_valid);
    assert_eq!(report.issues.len(), 2);
    assert_eq!(
        report.issues[0],
        "Trial balance is not balanced: debits = 1180.5, credits = 0"
    );
}

#[test]
fn balance_sheet_with_net_loss_reduces_equity() {
    let mut ledger = Ledger::new(MemoryStorage::new());
    ledger
        .create_account("cash".to_string(), "Cash".to_string(), AccountType::Asset, None)
        .unwrap();
    ledger
        .create_account("rent".to_string(), "Rent".to_string(), AccountType::Expense, None)
        .unwrap();
    ledger
        .create_account("equity".to_string(), "Equity".to_string(), AccountType::Equity, None)
        .unwrap();
    let funding = patterns::create_owner_investment(
        "f".to_string(),
        day(2024, 1, 1),
        "Funding".to_string(),
        "cash".to_string(),
        "equity".to_string(),
        d(100),
    )
    .unwrap();
    ledger.record_transaction(funding).unwrap();
    let rent = patterns::create_expense_payment(
        "r".to_string(),
        day(2024, 1, 2),
        "Rent".to_string(),
        "rent".to_string(),
        "cash".to_string(),
        d(30),
    )
    .unwrap();
    ledger.record_transaction(rent).unwrap();
    let sheet = ledger.generate_balance_sheet(day(2024, 1, 31)).unwrap();
    assert_eq!(sheet.total_assets, d(70));
    assert_eq!(sheet.total_equity, d(70));
    assert_eq!(sheet.equity[1].account.id, "net_income");
    assert_eq!(sheet.equity[1].debit_balance, Some(d(30)));
    assert!(sheet.is_balanced);
    let report = ledger.validate_integrity(day(2024, 1, 31)).unwrap();
    assert!(report.is_valid);
    assert!(report.issues.is_empty());
}
