//! The ledger: a store, an account validator and a transaction validator,
//! with every operation of the registry, the recorder and the reports.

use vstd::prelude::*;

use crate::account::{
    account_delete_outcome, account_update_outcome, create_account_in, create_outcome,
    delete_account_in, update_account_in,
};
use crate::calendar::Date;
use crate::chart::{chart_outcome, create_standard_chart_in};
use crate::decimal::Decimal;
use crate::recorder::{
    delete, delete_outcome, missing_reported, record, record_outcome, update, update_outcome,
    validator_errors_kept,
};
use crate::reports::{
    balance_sheet_of, cash_flow_of, generate_balance_sheet, generate_cash_flow,
    generate_income_statement, income_statement_of, integrity_outcome, trial_lines,
    validate_integrity,
    BalanceSheet, CashFlowStatement, IncomeStatement, LedgerIntegrityReport,
};
use crate::storage::{
    account_option_view, account_views, accounts_of_type, find_account, find_transaction,
    has_account, reported_balance, transaction_option_view, transaction_views,
    transactions_matching, trial, trial_answer, BalancesByType, LedgerStorage,
};
use crate::traits::{
    AccountValidator, DefaultAccountValidator, DefaultTransactionValidator, TransactionValidator,
};
use crate::types::{
    new_account_view, text_option, Account, AccountType, LedgerResult, Transaction, TrialBalance,
};

verus! {

/// The ledger over a store.
pub struct Ledger<S, A, T> {
    pub storage: S,
    pub account_validator: A,
    pub transaction_validator: T,
}

impl<S: LedgerStorage> Ledger<S, DefaultAccountValidator, DefaultTransactionValidator> {
    /// A ledger with the default validators.
    pub fn new(storage: S) -> (r: Ledger<S, DefaultAccountValidator, DefaultTransactionValidator>)
        ensures
            r.storage == storage,
    {
        Ledger {
            storage,
            account_validator: DefaultAccountValidator,
            transaction_validator: DefaultTransactionValidator,
        }
    }
}

impl<S: LedgerStorage, A: AccountValidator, T: TransactionValidator> Ledger<S, A, T> {
    /// A ledger with the given validators.
    pub fn with_validators(storage: S, account_validator: A, transaction_validator: T) -> (r:
        Ledger<S, A, T>)
        ensures
            r.storage == storage,
            r.account_validator == account_validator,
            r.transaction_validator == transaction_validator,
    {
        Ledger { storage, account_validator, transaction_validator }
    }

    /// The validators are those of `other`, and the store is as reliable.
    pub open spec fn same_setup(&self, other: &Ledger<S, A, T>) -> bool {
        &&& self.account_validator == other.account_validator
        &&& self.transaction_validator == other.transaction_validator
        &&& self.storage.never_fails() == other.storage.never_fails()
    }

    pub fn create_account(
        &mut self,
        id: String,
        name: String,
        account_type: AccountType,
        parent_id: Option<String>,
    ) -> (r: LedgerResult<Account>)
        ensures
            final(self).same_setup(old(self)),
            create_outcome(
                old(self).account_validator,
                old(self).storage.contents(),
                final(self).storage.contents(),
                new_account_view(id@, name@, account_type, text_option(parent_id)),
                old(self).storage.never_fails(),
                r is Ok,
            ),
            old(self).storage.never_fails() && old(self).account_validator.accepts_account(
                new_account_view(id@, name@, account_type, text_option(parent_id)),
            ) && r is Err ==> r->Err_0 is Validation,
            r is Ok ==> r->Ok_0@ == new_account_view(id@, name@, account_type, text_option(parent_id)),
    {
        create_account_in(
            &mut self.storage,
            &self.account_validator,
            id,
            name,
            account_type,
            parent_id,
        )
    }

    pub fn get_account(&self, account_id: &str) -> (r: LedgerResult<Option<Account>>)
        ensures
            r is Ok ==> account_option_view(r->Ok_0) == find_account(
                self.storage.contents().accounts,
                account_id@,
            ),
            self.storage.never_fails() ==> r is Ok,
    {
        self.storage.get_account(account_id)
    }

    pub fn list_accounts(&self) -> (r: LedgerResult<Vec<Account>>)
        ensures
            r is Ok ==> account_views(r->Ok_0@) == accounts_of_type(
                self.storage.contents().accounts,
                None,
            ),
            self.storage.never_fails() ==> r is Ok,
    {
        self.storage.list_accounts(None)
    }

    pub fn list_accounts_by_type(&self, account_type: AccountType) -> (r: LedgerResult<Vec<Account>>)
        ensures
            r is Ok ==> account_views(r->Ok_0@) == accounts_of_type(
                self.storage.contents().accounts,
                Some(account_type),
            ),
            self.storage.never_fails() ==> r is Ok,
    {
        self.storage.list_accounts(Some(account_type))
    }

    pub fn update_account(&mut self, account: &Account) -> (r: LedgerResult<()>)
        ensures
            final(self).same_setup(old(self)),
            account_update_outcome(
                old(self).account_validator,
                old(self).storage.contents(),
                final(self).storage.contents(),
                account@,
                old(self).storage.never_fails(),
                r is Ok,
            ),
    {
        update_account_in(&mut self.storage, &self.account_validator, account)
    }

    pub fn delete_account(&mut self, account_id: &str) -> (r: LedgerResult<()>)
        ensures
            final(self).same_setup(old(self)),
            account_delete_outcome(
                old(self).account_validator,
                old(self).storage.contents(),
                final(self).storage.contents(),
                account_id@,
                old(self).storage.never_fails(),
                r is Ok,
            ),
    {
        delete_account_in(&mut self.storage, &self.account_validator, account_id)
    }

    /// Validates, stores and posts `transaction`.
    pub fn record_transaction(&mut self, transaction: Transaction) -> (r: LedgerResult<()>)
        ensures
            final(self).same_setup(old(self)),
            record_outcome(
                old(self).transaction_validator,
                old(self).storage.contents(),
                final(self).storage.contents(),
                transaction@,
                old(self).storage.never_fails(),
                r is Ok,
            ),
            missing_reported(
                old(self).transaction_validator,
                old(self).storage.contents(),
                transaction@,
                old(self).storage.never_fails(),
                r,
            ),
            validator_errors_kept(old(self).transaction_validator, transaction@, r),
    {
        record(&mut self.storage, &self.transaction_validator, transaction)
    }

    pub fn get_transaction(&self, transaction_id: &str) -> (r: LedgerResult<Option<Transaction>>)
        ensures
            r is Ok ==> transaction_option_view(r->Ok_0) == find_transaction(
                self.storage.contents().transactions,
                transaction_id@,
            ),
            self.storage.never_fails() ==> r is Ok,
    {
        self.storage.get_transaction(transaction_id)
    }

    pub fn get_account_transactions(
        &self,
        account_id: &str,
        start_date: Option<Date>,
        end_date: Option<Date>,
    ) -> (r: LedgerResult<Vec<Transaction>>)
        ensures
            r is Ok ==> transaction_views(r->Ok_0@) == transactions_matching(
                self.storage.contents().transactions,
                Some(account_id@),
                start_date,
                end_date,
            ),
            self.storage.never_fails() ==> r is Ok,
    {
        self.storage.get_account_transactions(account_id, start_date, end_date)
    }

    pub fn get_transactions(&self, start_date: Option<Date>, end_date: Option<Date>) -> (r:
        LedgerResult<Vec<Transaction>>)
        ensures
            r is Ok ==> transaction_views(r->Ok_0@) == transactions_matching(
                self.storage.contents().transactions,
                None,
                start_date,
                end_date,
            ),
            self.storage.never_fails() ==> r is Ok,
    {
        self.storage.get_transactions(start_date, end_date)
    }

    /// Reverses the stored transaction of the same id and posts `transaction`
    /// in its place.
    pub fn update_transaction(&mut self, transaction: &Transaction) -> (r: LedgerResult<()>)
        ensures
            final(self).same_setup(old(self)),
            update_outcome(
                old(self).transaction_validator,
                old(self).storage.contents(),
                final(self).storage.contents(),
                transaction@,
                old(self).storage.never_fails(),
                r is Ok,
            ),
            old(self).storage.never_fails() && find_transaction(
                old(self).storage.contents().transactions,
                transaction@.id,
            ) is None ==> r is Err && r->Err_0 is TransactionNotFound
                && r->Err_0->TransactionNotFound_0@ == transaction@.id,
            old(self).storage.never_fails() && find_transaction(
                old(self).storage.contents().transactions,
                transaction@.id,
            ) is Some ==> validator_errors_kept(old(self).transaction_validator, transaction@, r),
    {
        update(&mut self.storage, &self.transaction_validator, transaction)
    }

    /// Reverses and removes the transaction `transaction_id`.
    pub fn delete_transaction(&mut self, transaction_id: &str) -> (r: LedgerResult<()>)
        ensures
            final(self).same_setup(old(self)),
            delete_outcome(
                old(self).storage.contents(),
                final(self).storage.contents(),
                transaction_id@,
                old(self).storage.never_fails(),
                r is Ok,
            ),
            old(self).storage.never_fails() && find_transaction(
                old(self).storage.contents().transactions,
                transaction_id@,
            ) is None ==> r is Err && r->Err_0 is TransactionNotFound
                && r->Err_0->TransactionNotFound_0@ == transaction_id@,
    {
        delete(&mut self.storage, transaction_id)
    }

    /// The running balance, or the balance replayed as of a date.
    pub fn get_account_balance(&self, account_id: &str, as_of_date: Option<Date>) -> (r:
        LedgerResult<Decimal>)
        ensures
            r is Ok ==> Some(r->Ok_0@) == reported_balance(
                self.storage.contents(),
                account_id@,
                as_of_date,
            ),
            !has_account(self.storage.contents().accounts, account_id@) ==> r is Err
                && r->Err_0 is AccountNotFound && r->Err_0->AccountNotFound_0@ == account_id@,
            self.storage.never_fails() ==> (r is Ok == reported_balance(
                self.storage.contents(),
                account_id@,
                as_of_date,
            ) is Some),
    {
        self.storage.get_account_balance(account_id, as_of_date)
    }

    pub fn get_trial_balance(&self, as_of_date: Date) -> (r: LedgerResult<TrialBalance>)
        ensures
            r is Ok ==> trial_answer(self.storage.contents(), as_of_date, r->Ok_0),
            self.storage.never_fails() ==> (r is Ok == trial(
                self.storage.contents().accounts,
                self.storage.contents().transactions,
                as_of_date,
            ) is Some),
    {
        self.storage.get_trial_balance(as_of_date)
    }

    pub fn get_account_balances_by_type(&self, as_of_date: Date) -> (r: LedgerResult<BalancesByType>)
        ensures
            r is Ok ==> trial_lines(self.storage.contents(), as_of_date) is Some
                && r->Ok_0.groups_lines(trial_lines(self.storage.contents(), as_of_date).unwrap()),
            self.storage.never_fails() ==> (r is Ok == trial_lines(
                self.storage.contents(),
                as_of_date,
            ) is Some),
    {
        self.storage.get_account_balances_by_type(as_of_date)
    }

    pub fn generate_balance_sheet(&self, as_of_date: Date) -> (r: LedgerResult<BalanceSheet>)
        ensures
            ({
                let lines = trial_lines(self.storage.contents(), as_of_date);
                let computable = lines is Some && balance_sheet_of(lines.unwrap(), as_of_date) is Some;
                &&& r is Ok ==> computable && r->Ok_0@ == balance_sheet_of(
                    lines.unwrap(),
                    as_of_date,
                ).unwrap()
                &&& self.storage.never_fails() ==> (r is Ok == computable)
            }),
    {
        generate_balance_sheet(&self.storage, as_of_date)
    }

    pub fn generate_income_statement(&self, start_date: Date, end_date: Date) -> (r: LedgerResult<
        IncomeStatement,
    >)
        ensures
            ({
                let s = income_statement_of(
                    self.storage.contents().accounts,
                    self.storage.contents().transactions,
                    start_date,
                    end_date,
                );
                &&& r is Ok ==> s is Some && r->Ok_0@ == s.unwrap()
                &&& self.storage.never_fails() ==> (r is Ok == s is Some)
            }),
    {
        generate_income_statement(&self.storage, start_date, end_date)
    }

    pub fn generate_cash_flow(&self, start_date: Date, end_date: Date) -> (r: LedgerResult<
        CashFlowStatement,
    >)
        ensures
            ({
                let s = cash_flow_of(
                    transactions_matching(
                        self.storage.contents().transactions,
                        None,
                        Some(start_date),
                        Some(end_date),
                    ),
                    start_date,
                    end_date,
                );
                &&& r is Ok ==> s is Some && r->Ok_0@ == s.unwrap()
                &&& self.storage.never_fails() ==> (r is Ok == s is Some)
            }),
    {
        generate_cash_flow(&self.storage, start_date, end_date)
    }

    /// Creates the accounts of the standard small-business chart.
    pub fn setup_standard_chart_of_accounts(&mut self) -> (r: LedgerResult<Vec<(String, Account)>>)
        ensures
            final(self).same_setup(old(self)),
            chart_outcome(
                old(self).account_validator,
                old(self).storage.contents(),
                final(self).storage.contents(),
                old(self).storage.never_fails(),
                r,
            ),
    {
        create_standard_chart_in(&mut self.storage, &self.account_validator)
    }

    /// Cross-checks the trial balance against the balance sheet.
    pub fn validate_integrity(&self, as_of_date: Date) -> (r: LedgerResult<LedgerIntegrityReport>)
        ensures
            integrity_outcome(self.storage.contents(), as_of_date, self.storage.never_fails(), r),
    {
        validate_integrity(&self.storage, as_of_date)
    }
}

/// Generates the financial statements.
pub trait ReportGenerator {
    fn generate_balance_sheet(&self, as_of_date: Date) -> LedgerResult<BalanceSheet>;

    fn generate_income_statement(&self, start_date: Date, end_date: Date) -> LedgerResult<
        IncomeStatement,
    >;

    fn generate_cash_flow(&self, start_date: Date, end_date: Date) -> LedgerResult<
        CashFlowStatement,
    >;
}

impl<S: LedgerStorage, A: AccountValidator, T: TransactionValidator> ReportGenerator for Ledger<
    S,
    A,
    T,
> {
    fn generate_balance_sheet(&self, as_of_date: Date) -> LedgerResult<BalanceSheet> {
        generate_balance_sheet(&self.storage, as_of_date)
    }

    fn generate_income_statement(&self, start_date: Date, end_date: Date) -> LedgerResult<
        IncomeStatement,
    > {
        generate_income_statement(&self.storage, start_date, end_date)
    }

    fn generate_cash_flow(&self, start_date: Date, end_date: Date) -> LedgerResult<
        CashFlowStatement,
    > {
        generate_cash_flow(&self.storage, start_date, end_date)
    }
}

} // verus!
