//! The transaction recorder over a store, and a builder for transactions.

use vstd::prelude::*;

use crate::calendar::Date;
use crate::decimal::Decimal;
use crate::recorder::{
    delete, delete_outcome, missing_reported, record, record_outcome, update, update_outcome,
    validator_errors_kept,
};
use crate::storage::{
    find_transaction, has_transaction, transaction_option_view, transaction_views,
    transactions_matching, LedgerStorage,
};
use crate::traits::{DefaultTransactionValidator, TransactionValidator};
use crate::types::{
    entries_valid, Entry, EntryType, LedgerError, LedgerResult, Transaction, TransactionView,
};

verus! {

/// The transaction recorder over a store.
pub struct TransactionManager<S, V> {
    pub storage: S,
    pub validator: V,
}

impl<S: LedgerStorage> TransactionManager<S, DefaultTransactionValidator> {
    /// A recorder that enforces exactly the double-entry rules.
    pub fn new(storage: S) -> (r: TransactionManager<S, DefaultTransactionValidator>)
        ensures
            r.storage == storage,
    {
        TransactionManager { storage, validator: DefaultTransactionValidator }
    }
}

impl<S: LedgerStorage, V: TransactionValidator> TransactionManager<S, V> {
    pub fn with_validator(storage: S, validator: V) -> (r: TransactionManager<S, V>)
        ensures
            r.storage == storage,
            r.validator == validator,
    {
        TransactionManager { storage, validator }
    }

    /// Validates, stores and posts `transaction`.
    pub fn record_transaction(&mut self, transaction: Transaction) -> (r: LedgerResult<()>)
        ensures
            final(self).storage.never_fails() == old(self).storage.never_fails(),
            final(self).validator == old(self).validator,
            record_outcome(
                old(self).validator,
                old(self).storage.contents(),
                final(self).storage.contents(),
                transaction@,
                old(self).storage.never_fails(),
                r is Ok,
            ),
            missing_reported(
                old(self).validator,
                old(self).storage.contents(),
                transaction@,
                old(self).storage.never_fails(),
                r,
            ),
            validator_errors_kept(old(self).validator, transaction@, r),
    {
        record(&mut self.storage, &self.validator, transaction)
    }

    pub fn get_transaction(&self, transaction_id: &str) -> (r: LedgerResult<Option<Transaction>>)
        ensures
            r is Ok ==> transaction_option_view(r->Ok_0) == find_transaction(
                self.storage.contents().transactions,
                transaction_id@,
            ),
            self.storage.never_fails() ==> r is Ok,
    {
        self.storage.get_transaction(transaction_id)
    }

    /// The transaction `transaction_id`, or `TransactionNotFound`.
    pub fn get_transaction_required(&self, transaction_id: &str) -> (r: LedgerResult<Transaction>)
        ensures
            r is Ok ==> Some(r->Ok_0@) == find_transaction(
                self.storage.contents().transactions,
                transaction_id@,
            ),
            !has_transaction(self.storage.contents().transactions, transaction_id@) ==> r is Err,
            self.storage.never_fails() ==> (r is Ok == has_transaction(
                self.storage.contents().transactions,
                transaction_id@,
            )),
            self.storage.never_fails() && r is Err ==> r->Err_0 is TransactionNotFound
                && r->Err_0->TransactionNotFound_0@ == transaction_id@,
    {
        match self.storage.get_transaction(transaction_id)? {
            Some(t) => Ok(t),
            None => Err(LedgerError::TransactionNotFound(transaction_id.to_owned())),
        }
    }

    pub fn get_account_transactions(
        &self,
        account_id: &str,
        start_date: Option<Date>,
        end_date: Option<Date>,
    ) -> (r: LedgerResult<Vec<Transaction>>)
        ensures
            r is Ok ==> transaction_views(r->Ok_0@) == transactions_matching(
                self.storage.contents().transactions,
                Some(account_id@),
                start_date,
                end_date,
            ),
            self.storage.never_fails() ==> r is Ok,
    {
        self.storage.get_account_transactions(account_id, start_date, end_date)
    }

    pub fn get_transactions(&self, start_date: Option<Date>, end_date: Option<Date>) -> (r:
        LedgerResult<Vec<Transaction>>)
        ensures
            r is Ok ==> transaction_views(r->Ok_0@) == transactions_matching(
                self.storage.contents().transactions,
                None,
                start_date,
                end_date,
            ),
            self.storage.never_fails() ==> r is Ok,
    {
        self.storage.get_transactions(start_date, end_date)
    }

    /// Reverses the stored transaction of the same id and posts `transaction`
    /// in its place.
    pub fn update_transaction(&mut self, transaction: &Transaction) -> (r: LedgerResult<()>)
        ensures
            final(self).storage.never_fails() == old(self).storage.never_fails(),
            final(self).validator == old(self).validator,
            update_outcome(
                old(self).validator,
                old(self).storage.contents(),
                final(self).storage.contents(),
                transaction@,
                old(self).storage.never_fails(),
                r is Ok,
            ),
            old(self).storage.never_fails() && find_transaction(
                old(self).storage.contents().transactions,
                transaction@.id,
            ) is None ==> r is Err && r->Err_0 is TransactionNotFound
                && r->Err_0->TransactionNotFound_0@ == transaction@.id,
            old(self).storage.never_fails() && find_transaction(
                old(self).storage.contents().transactions,
                transaction@.id,
            ) is Some ==> validator_errors_kept(old(self).validator, transaction@, r),
    {
        update(&mut self.storage, &self.validator, transaction)
    }

    /// Reverses and removes the transaction `transaction_id`.
    pub fn delete_transaction(&mut self, transaction_id: &str) -> (r: LedgerResult<()>)
        ensures
            final(self).storage.never_fails() == old(self).storage.never_fails(),
            final(self).validator == old(self).validator,
            delete_outcome(
                old(self).storage.contents(),
                final(self).storage.contents(),
                transaction_id@,
                old(self).storage.never_fails(),
                r is Ok,
            ),
            old(self).storage.never_fails() && find_transaction(
                old(self).storage.contents().transactions,
                transaction_id@,
            ) is None ==> r is Err && r->Err_0 is TransactionNotFound
                && r->Err_0->TransactionNotFound_0@ == transaction_id@,
    {
        delete(&mut self.storage, transaction_id)
    }
}

/// Builds a transaction entry by entry and checks it at the end.
#[derive(Debug)]
pub struct TransactionBuilder {
    transaction: Transaction,
}

impl View for TransactionBuilder {
    type V = TransactionView;

    closed spec fn view(&self) -> TransactionView {
        self.transaction@
    }
}

impl TransactionBuilder {
    /// A builder for a transaction with no entries, reference or metadata.
    pub fn new(id: String, date: Date, description: String) -> (r: TransactionBuilder)
        ensures
            r@ == (TransactionView {
                id: id@,
                date,
                entries: Seq::empty(),
                description: description@,
                reference: None,
                metadata: Seq::empty(),
            }),
    {
        TransactionBuilder { transaction: Transaction::new(id, date, description, None) }
    }

    pub fn reference(self, reference: String) -> (r: TransactionBuilder)
        ensures
            r@ == (TransactionView { reference: Some(reference@), ..self@ }),
    {
        let mut b = self;
        b.transaction.reference = Some(reference);
        b
    }

    /// Adds a metadata pair.
    pub fn metadata(self, key: String, value: String) -> (r: TransactionBuilder)
        ensures
            r@ == (TransactionView { metadata: self@.metadata.push((key, value)), ..self@ }),
    {
        let mut b = self;
        b.transaction.metadata.push((key, value));
        b
    }

    pub fn debit(self, account_id: String, amount: Decimal, description: Option<String>) -> (r:
        TransactionBuilder)
        ensures
            r@ == (TransactionView {
                entries: self@.entries.push(
                    Entry { account_id, entry_type: EntryType::Debit, amount, description },
                ),
                ..self@
            }),
    {
        self.entry(Entry::debit(account_id, amount, description))
    }

    pub fn credit(self, account_id: String, amount: Decimal, description: Option<String>) -> (r:
        TransactionBuilder)
        ensures
            r@ == (TransactionView {
                entries: self@.entries.push(
                    Entry { account_id, entry_type: EntryType::Credit, amount, description },
                ),
                ..self@
            }),
    {
        self.entry(Entry::credit(account_id, amount, description))
    }

    pub fn entry(self, entry: Entry) -> (r: TransactionBuilder)
        ensures
            r@ == (TransactionView { entries: self@.entries.push(entry), ..self@ }),
    {
        let mut b = self;
        b.transaction.add_entry(entry);
        b
    }

    /// The transaction, if it meets the double-entry rules.
    pub fn build(self) -> (r: LedgerResult<Transaction>)
        ensures
            r is Ok == entries_valid(self@.entries),
            r is Ok ==> r->Ok_0@ == self@,
            r is Err ==> r->Err_0 is InvalidTransaction,
    {
        self.transaction.validate()?;
        Ok(self.transaction)
    }
}

/// The parts of an invoice that carries GST.
pub struct InvoiceWithGstParams {
    pub id: String,
    pub date: Date,
    pub description: String,
    pub receivables_account_id: String,
    pub revenue_account_id: String,
    pub gst_payable_account_id: String,
    pub base_amount: Decimal,
    pub gst_amount: Decimal,
}

/// The parts of a bill paid with GST.
pub struct BillPaymentWithGstParams {
    pub id: String,
    pub date: Date,
    pub description: String,
    pub expense_account_id: String,
    pub gst_recoverable_account_id: String,
    pub cash_or_payables_account_id: String,
    pub base_amount: Decimal,
    pub gst_amount: Decimal,
}

} // verus!
