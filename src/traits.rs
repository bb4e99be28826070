//! The validator extension points and their permissive defaults.

use vstd::prelude::*;

use crate::types::{
    entries_valid, Account, AccountView, LedgerError, LedgerResult, Transaction, TransactionView,
};
use crate::validation::{blank, is_blank};

verus! {

/// Rules an account must meet before it is saved or deleted.
pub trait AccountValidator {
    /// Whether `a` may be saved.
    spec fn accepts_account(&self, a: AccountView) -> bool;

    /// Whether the account `account_id` may be deleted.
    spec fn allows_deletion(&self, account_id: Seq<char>) -> bool;

    fn validate_account(&self, account: &Account) -> (r: LedgerResult<()>)
        ensures
            r is Ok == self.accepts_account(account@),
    ;

    fn validate_account_deletion(&self, account_id: &str) -> (r: LedgerResult<()>)
        ensures
            r is Ok == self.allows_deletion(account_id@),
    ;
}

/// Rules a transaction must meet before it is recorded. A validator may
/// only tighten the double-entry rules: whatever it accepts balances.
pub trait TransactionValidator {
    spec fn accepts_transaction(&self, t: TransactionView) -> bool;

    spec fn accepts_references(&self, t: TransactionView) -> bool;

    /// Whether `e` is an error the transaction rule may give for `t`.
    spec fn transaction_error(&self, t: TransactionView, e: LedgerError) -> bool;

    /// Whether `e` is an error the reference rule may give for `t`.
    spec fn reference_error(&self, t: TransactionView, e: LedgerError) -> bool;

    fn validate_transaction(&self, transaction: &Transaction) -> (r: LedgerResult<()>)
        ensures
            r is Ok == self.accepts_transaction(transaction@),
            r is Ok ==> entries_valid(transaction@.entries),
            r is Err ==> self.transaction_error(transaction@, r->Err_0),
    ;

    fn validate_account_references(&self, transaction: &Transaction) -> (r: LedgerResult<()>)
        ensures
            r is Ok == self.accepts_references(transaction@),
            r is Err ==> self.reference_error(transaction@, r->Err_0),
    ;
}

/// Accepts any account whose id and name are not blank, and every deletion.
pub struct DefaultAccountValidator;

impl AccountValidator for DefaultAccountValidator {
    open spec fn accepts_account(&self, a: AccountView) -> bool {
        !blank(a.id) && !blank(a.name)
    }

    open spec fn allows_deletion(&self, account_id: Seq<char>) -> bool {
        true
    }

    fn validate_account(&self, account: &Account) -> (r: LedgerResult<()>) {
        if is_blank(account.id.as_str()) {
            return Err(LedgerError::Validation("Account ID cannot be empty".to_string()));
        }
        if is_blank(account.name.as_str()) {
            return Err(LedgerError::Validation("Account name cannot be empty".to_string()));
        }
        Ok(())
    }

    fn validate_account_deletion(&self, account_id: &str) -> (r: LedgerResult<()>) {
        Ok(())
    }
}

/// Accepts exactly the transactions that meet the double-entry rules.
pub struct DefaultTransactionValidator;

impl TransactionValidator for DefaultTransactionValidator {
    open spec fn accepts_transaction(&self, t: TransactionView) -> bool {
        entries_valid(t.entries)
    }

    open spec fn accepts_references(&self, t: TransactionView) -> bool {
        true
    }

    open spec fn transaction_error(&self, t: TransactionView, e: LedgerError) -> bool {
        e is InvalidTransaction
    }

    open spec fn reference_error(&self, t: TransactionView, e: LedgerError) -> bool {
        false
    }

    fn validate_transaction(&self, transaction: &Transaction) -> (r: LedgerResult<()>) {
        transaction.validate()
    }

    fn validate_account_references(&self, transaction: &Transaction) -> (r: LedgerResult<()>) {
        Ok(())
    }
}

} // verus!
