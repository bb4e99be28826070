//! Accounts, entries and transactions, with the balance-update rule.

use vstd::prelude::*;

use crate::calendar::{now_millis, Date};
use crate::decimal::{fits, Decimal};
use crate::sums::{lemma_sum_take_next, sum, sum_fits};

verus! {

/// The five kinds of account of double-entry bookkeeping.
#[derive(Clone, Copy, Debug, PartialEq, Eq, Structural, Hash)]
pub enum AccountType {
    /// What the business owns.
    Asset,
    /// What the business owes.
    Liability,
    /// The owners' interest in the business.
    Equity,
    /// Money earned.
    Income,
    /// Costs incurred.
    Expense,
}

/// The two sides of an entry.
#[derive(Clone, Copy, Debug, PartialEq, Eq, Structural, Hash)]
pub enum EntryType {
    Debit,
    Credit,
}

/// The side that increases an account of type `t`: debit for assets and
/// expenses, credit for liabilities, equity and income.
pub open spec fn normal_side(t: AccountType) -> EntryType {
    match t {
        AccountType::Asset | AccountType::Expense => EntryType::Debit,
        _ => EntryType::Credit,
    }
}

pub open spec fn opposite(e: EntryType) -> EntryType {
    match e {
        EntryType::Debit => EntryType::Credit,
        EntryType::Credit => EntryType::Debit,
    }
}

/// The balance-update rule: an entry on the account's normal side raises its
/// balance by the amount, an entry on the other side lowers it.
pub open spec fn signed_change(normal: EntryType, e: EntryType, amount: int) -> int {
    if e == normal {
        amount
    } else {
        -amount
    }
}

impl AccountType {
    /// The entry type that increases an account of this type.
    pub fn normal_balance(&self) -> (r: EntryType)
        ensures
            r == normal_side(*self),
    {
        match self {
            AccountType::Asset | AccountType::Expense => EntryType::Debit,
            AccountType::Liability | AccountType::Equity | AccountType::Income => EntryType::Credit,
        }
    }
}

impl EntryType {
    /// Debit for credit and credit for debit.
    pub fn opposite(&self) -> (r: EntryType)
        ensures
            r == opposite(*self),
    {
        match self {
            EntryType::Debit => EntryType::Credit,
            EntryType::Credit => EntryType::Debit,
        }
    }
}

pub open spec fn text_option(o: Option<String>) -> Option<Seq<char>> {
    match o {
        Some(s) => Some(s@),
        None => None,
    }
}

pub open spec fn text_pairs(v: Seq<(String, String)>) -> Seq<(Seq<char>, Seq<char>)> {
    v.map_values(|p: (String, String)| (p.0@, p.1@))
}

pub fn clone_text_option(o: &Option<String>) -> (r: Option<String>)
    ensures
        r == *o,
{
    match o {
        Some(s) => Some(s.clone()),
        None => None,
    }
}

pub fn clone_pairs(v: &Vec<(String, String)>) -> (r: Vec<(String, String)>)
    ensures
        r@ == v@,
{
    let mut r: Vec<(String, String)> = Vec::new();
    let mut i: usize = 0;
    while i < v.len()
        invariant
            i <= v.len(),
            r@ == v@.take(i as int),
        decreases v.len() - i,
    {
        let p = &v[i];
        r.push((p.0.clone(), p.1.clone()));
        i += 1;
        proof {
            assert(r@ =~= v@.take(i as int));
        }
    }
    proof {
        assert(r@ =~= v@);
    }
    r
}

/// An account of the chart of accounts, with its running balance.
#[derive(Debug)]
pub struct Account {
    /// Unique, stable identifier.
    pub id: String,
    /// Human-readable name.
    pub name: String,
    pub account_type: AccountType,
    /// The parent account in the hierarchy, if any.
    pub parent_id: Option<String>,
    /// Running balance, positive on the account's normal side.
    pub balance: Decimal,
    /// Free-form key/value pairs.
    pub metadata: Vec<(String, String)>,
    /// Creation time in milliseconds since the Unix epoch.
    pub created_at: i64,
    /// Time of the last change in milliseconds since the Unix epoch.
    pub updated_at: i64,
}

/// The value of an [`Account`]; timestamps are left out.
pub struct AccountView {
    pub id: Seq<char>,
    pub name: Seq<char>,
    pub account_type: AccountType,
    pub parent_id: Option<Seq<char>>,
    pub balance: int,
    pub metadata: Seq<(String, String)>,
}

/// A fresh account: zero balance, no metadata.
pub open spec fn new_account_view(
    id: Seq<char>,
    name: Seq<char>,
    account_type: AccountType,
    parent_id: Option<Seq<char>>,
) -> AccountView {
    AccountView {
        id,
        name,
        account_type,
        parent_id,
        balance: 0,
        metadata: Seq::empty(),
    }
}

impl View for Account {
    type V = AccountView;

    open spec fn view(&self) -> AccountView {
        AccountView {
            id: self.id@,
            name: self.name@,
            account_type: self.account_type,
            parent_id: text_option(self.parent_id),
            balance: self.balance@,
            metadata: self.metadata@,
        }
    }
}

impl Clone for Account {
    fn clone(&self) -> (r: Account)
        ensures
            r@ == self@,
    {
        Account {
            id: self.id.clone(),
            name: self.name.clone(),
            account_type: self.account_type,
            parent_id: clone_text_option(&self.parent_id),
            balance: self.balance,
            metadata: clone_pairs(&self.metadata),
            created_at: self.created_at,
            updated_at: self.updated_at,
        }
    }
}

impl Account {
    /// A new account with a zero balance and no metadata.
    pub fn new(id: String, name: String, account_type: AccountType, parent_id: Option<String>) -> (r:
        Account)
        ensures
            r@ == new_account_view(id@, name@, account_type, text_option(parent_id)),
    {
        let now = now_millis();
        let r = Account {
            id,
            name,
            account_type,
            parent_id,
            balance: Decimal::zero(),
            metadata: Vec::new(),
            created_at: now,
            updated_at: now,
        };
        proof {
            assert(r@.metadata =~= Seq::<(String, String)>::empty());
        }
        r
    }

    /// Applies one entry to the running balance by the balance-update rule.
    /// Where the new balance cannot be held, the account is left unchanged
    /// and a validation error is returned.
    pub fn apply_entry(&mut self, entry_type: EntryType, amount: &Decimal) -> (r: Result<(), LedgerError>)
        ensures
            r.is_ok() == fits(
                old(self)@.balance + signed_change(
                    normal_side(old(self).account_type),
                    entry_type,
                    amount@,
                ),
            ),
            r.is_ok() ==> final(self)@ == (AccountView {
                balance: old(self)@.balance + signed_change(
                    normal_side(old(self).account_type),
                    entry_type,
                    amount@,
                ),
                ..old(self)@
            }),
            r.is_err() ==> final(self)@ == old(self)@,
            r.is_err() ==> r->Err_0 is Validation,
            final(self).created_at == old(self).created_at,
    {
        let normal = self.account_type.normal_balance();
        let next = if normal == entry_type {
            self.balance.checked_add(amount)
        } else {
            self.balance.checked_sub(amount)
        };
        match next {
            Some(b) => {
                self.balance = b;
                self.updated_at = now_millis();
                Ok(())
            },
            None => Err(LedgerError::Validation("balance out of range".to_string())),
        }
    }
}

/// One line of a transaction: an amount on one side of one account.
#[derive(Debug)]
pub struct Entry {
    /// The account the entry posts to.
    pub account_id: String,
    pub entry_type: EntryType,
    /// Strictly positive in a valid transaction.
    pub amount: Decimal,
    pub description: Option<String>,
}

impl Clone for Entry {
    fn clone(&self) -> (r: Entry)
        ensures
            r == *self,
    {
        Entry {
            account_id: self.account_id.clone(),
            entry_type: self.entry_type,
            amount: self.amount,
            description: clone_text_option(&self.description),
        }
    }
}

impl Entry {
    pub fn new(account_id: String, entry_type: EntryType, amount: Decimal, description: Option<
        String,
    >) -> (r: Entry)
        ensures
            r == (Entry { account_id, entry_type, amount, description }),
    {
        Entry { account_id, entry_type, amount, description }
    }

    pub fn debit(account_id: String, amount: Decimal, description: Option<String>) -> (r: Entry)
        ensures
            r == (Entry { account_id, entry_type: EntryType::Debit, amount, description }),
    {
        Entry::new(account_id, EntryType::Debit, amount, description)
    }

    pub fn credit(account_id: String, amount: Decimal, description: Option<String>) -> (r: Entry)
        ensures
            r == (Entry { account_id, entry_type: EntryType::Credit, amount, description }),
    {
        Entry::new(account_id, EntryType::Credit, amount, description)
    }
}

/// Errors of the ledger.
#[derive(Debug)]
pub enum LedgerError {
    /// The storage backend failed.
    Storage(String),
    /// A transaction breaks the double-entry rules.
    InvalidTransaction(String),
    AccountNotFound(String),
    TransactionNotFound(String),
    /// Malformed input.
    Validation(String),
}

pub type LedgerResult<T> = Result<T, LedgerError>;

/// The amounts of the entries on side `side`, with zero for the others.
pub open spec fn side_amounts(es: Seq<Entry>, side: EntryType) -> Seq<int> {
    es.map_values(|e: Entry| if e.entry_type == side { e.amount@ } else { 0 })
}

/// Debits and credits both have representable running totals, and the totals
/// agree.
pub open spec fn entries_balanced(es: Seq<Entry>) -> bool {
    &&& sum_fits(side_amounts(es, EntryType::Debit))
    &&& sum_fits(side_amounts(es, EntryType::Credit))
    &&& sum(side_amounts(es, EntryType::Debit)) == sum(side_amounts(es, EntryType::Credit))
}

pub open spec fn amounts_positive(es: Seq<Entry>) -> bool {
    forall|i: int| 0 <= i < es.len() ==> #[trigger] es[i].amount@ > 0
}

/// The double-entry invariant: at least two entries, every amount strictly
/// positive, debits summing to credits.
pub open spec fn entries_valid(es: Seq<Entry>) -> bool {
    es.len() >= 2 && entries_balanced(es) && amounts_positive(es)
}

/// The total of the entries on one side, or `None` where a running total
/// cannot be held.
fn side_total(entries: &Vec<Entry>, side: EntryType) -> (r: Option<Decimal>)
    ensures
        r.is_some() == sum_fits(side_amounts(entries@, side)),
        r.is_some() ==> r.unwrap()@ == sum(side_amounts(entries@, side)),
{
    let ghost xs = side_amounts(entries@, side);
    let mut total = Decimal::zero();
    let mut i: usize = 0;
    proof {
        assert(xs.take(0) =~= Seq::<int>::empty());
    }
    while i < entries.len()
        invariant
            i <= entries.len(),
            xs == side_amounts(entries@, side),
            total@ == sum(xs.take(i as int)),
            forall|k: int| 0 <= k <= i ==> fits(0 + #[trigger] sum(xs.take(k))),
        decreases entries.len() - i,
    {
        let e = &entries[i];
        proof {
            lemma_sum_take_next(xs, i as int);
        }
        if e.entry_type == side {
            match total.checked_add(&e.amount) {
                Some(t) => {
                    total = t;
                },
                None => {
                    return None;
                },
            }
        }
        i += 1;
    }
    proof {
        assert(xs.take(xs.len() as int) =~= xs);
    }
    Some(total)
}

/// A dated set of entries that must balance.
#[derive(Debug)]
pub struct Transaction {
    /// Unique identifier.
    pub id: String,
    /// The day the transaction took place.
    pub date: Date,
    /// The entries, in the order they were added.
    pub entries: Vec<Entry>,
    pub description: String,
    /// An outside reference such as an invoice or cheque number.
    pub reference: Option<String>,
    /// Free-form key/value pairs.
    pub metadata: Vec<(String, String)>,
    /// Creation time in milliseconds since the Unix epoch.
    pub created_at: i64,
    /// Time of the last change in milliseconds since the Unix epoch.
    pub updated_at: i64,
}

/// The value of a [`Transaction`]; timestamps are left out.
pub struct TransactionView {
    pub id: Seq<char>,
    pub date: Date,
    pub entries: Seq<Entry>,
    pub description: Seq<char>,
    pub reference: Option<Seq<char>>,
    pub metadata: Seq<(String, String)>,
}

impl View for Transaction {
    type V = TransactionView;

    open spec fn view(&self) -> TransactionView {
        TransactionView {
            id: self.id@,
            date: self.date,
            entries: self.entries@,
            description: self.description@,
            reference: text_option(self.reference),
            metadata: self.metadata@,
        }
    }
}

pub fn clone_entries(v: &Vec<Entry>) -> (r: Vec<Entry>)
    ensures
        r@ == v@,
{
    let mut r: Vec<Entry> = Vec::new();
    let mut i: usize = 0;
    while i < v.len()
        invariant
            i <= v.len(),
            r@ == v@.take(i as int),
        decreases v.len() - i,
    {
        r.push(v[i].clone());
        i += 1;
        proof {
            assert(r@ =~= v@.take(i as int));
        }
    }
    proof {
        assert(r@ =~= v@);
    }
    r
}

impl Clone for Transaction {
    fn clone(&self) -> (r: Transaction)
        ensures
            r@ == self@,
    {
        Transaction {
            id: self.id.clone(),
            date: self.date,
            entries: clone_entries(&self.entries),
            description: self.description.clone(),
            reference: clone_text_option(&self.reference),
            metadata: clone_pairs(&self.metadata),
            created_at: self.created_at,
            updated_at: self.updated_at,
        }
    }
}

impl Transaction {
    /// A transaction with no entries yet.
    pub fn new(id: String, date: Date, description: String, reference: Option<String>) -> (r:
        Transaction)
        ensures
            r@ == (TransactionView {
                id: id@,
                date,
                entries: Seq::empty(),
                description: description@,
                reference: text_option(reference),
                metadata: Seq::empty(),
            }),
    {
        let now = now_millis();
        let r = Transaction {
            id,
            date,
            entries: Vec::new(),
            description,
            reference,
            metadata: Vec::new(),
            created_at: now,
            updated_at: now,
        };
        proof {
            assert(r@.entries =~= Seq::<Entry>::empty());
            assert(r@.metadata =~= Seq::<(String, String)>::empty());
        }
        r
    }

    /// Appends an entry.
    pub fn add_entry(&mut self, entry: Entry)
        ensures
            final(self)@ == (TransactionView {
                entries: old(self)@.entries.push(entry),
                ..old(self)@
            }),
    {
        self.entries.push(entry);
        self.updated_at = now_millis();
    }

    /// The sum of the debit amounts, or `None` where it cannot be held.
    pub fn total_debits(&self) -> (r: Option<Decimal>)
        ensures
            r.is_some() == sum_fits(side_amounts(self@.entries, EntryType::Debit)),
            r.is_some() ==> r.unwrap()@ == sum(side_amounts(self@.entries, EntryType::Debit)),
    {
        side_total(&self.entries, EntryType::Debit)
    }

    /// The sum of the credit amounts, or `None` where it cannot be held.
    pub fn total_credits(&self) -> (r: Option<Decimal>)
        ensures
            r.is_some() == sum_fits(side_amounts(self@.entries, EntryType::Credit)),
            r.is_some() ==> r.unwrap()@ == sum(side_amounts(self@.entries, EntryType::Credit)),
    {
        side_total(&self.entries, EntryType::Credit)
    }

    /// Whether debits and credits sum to the same amount.
    pub fn is_balanced(&self) -> (r: bool)
        ensures
            r == entries_balanced(self@.entries),
    {
        match (self.total_debits(), self.total_credits()) {
            (Some(d), Some(c)) => d.units == c.units,
            _ => false,
        }
    }

    /// Checks the double-entry invariant.
    pub fn validate(&self) -> (r: LedgerResult<()>)
        ensures
            r.is_ok() == entries_valid(self@.entries),
            r.is_err() ==> r->Err_0 is InvalidTransaction,
    {
        if self.entries.len() == 0 {
            return Err(
                LedgerError::InvalidTransaction(
                    "Transaction must have at least one entry".to_string(),
                ),
            );
        }
        if self.entries.len() < 2 {
            return Err(
                LedgerError::InvalidTransaction(
                    "Transaction must have at least two entries for double-entry bookkeeping".to_string(),
                ),
            );
        }
        if !self.is_balanced() {
            return Err(
                LedgerError::InvalidTransaction("Transaction is not balanced".to_string()),
            );
        }
        let mut i: usize = 0;
        while i < self.entries.len()
            invariant
                i <= self.entries.len(),
                forall|j: int| 0 <= j < i ==> #[trigger] self.entries@[j].amount@ > 0,
            decreases self.entries.len() - i,
        {
            if !self.entries[i].amount.is_positive() {
                return Err(
                    LedgerError::InvalidTransaction("Entry amounts must be positive".to_string()),
                );
            }
            i += 1;
        }
        Ok(())
    }
}

/// One account's line in a trial balance: its balance on the debit or on
/// the credit side, never both.
#[derive(Debug)]
pub struct AccountBalance {
    pub account: Account,
    pub debit_balance: Option<Decimal>,
    pub credit_balance: Option<Decimal>,
}

pub struct AccountBalanceView {
    pub account: AccountView,
    pub debit_balance: Option<int>,
    pub credit_balance: Option<int>,
}

pub open spec fn amount_option(o: Option<Decimal>) -> Option<int> {
    match o {
        Some(d) => Some(d@),
        None => None,
    }
}

impl View for AccountBalance {
    type V = AccountBalanceView;

    open spec fn view(&self) -> AccountBalanceView {
        AccountBalanceView {
            account: self.account@,
            debit_balance: amount_option(self.debit_balance),
            credit_balance: amount_option(self.credit_balance),
        }
    }
}

/// The amount of a line: its debit amount if it has one, else its credit
/// amount, else zero.
pub open spec fn line_amount(v: AccountBalanceView) -> int {
    match v.debit_balance {
        Some(d) => d,
        None => match v.credit_balance {
            Some(c) => c,
            None => 0,
        },
    }
}

impl Clone for AccountBalance {
    fn clone(&self) -> (r: AccountBalance)
        ensures
            r@ == self@,
    {
        AccountBalance {
            account: self.account.clone(),
            debit_balance: self.debit_balance,
            credit_balance: self.credit_balance,
        }
    }
}

impl AccountBalance {
    /// The debit amount if there is one, else the credit amount, else zero.
    pub fn balance_amount(&self) -> (r: Decimal)
        ensures
            r@ == line_amount(self@),
    {
        match self.debit_balance {
            Some(d) => d,
            None => match self.credit_balance {
                Some(c) => c,
                None => Decimal::zero(),
            },
        }
    }
}

/// Every account's balance as of a date, split into debit and credit
/// columns.
#[derive(Debug)]
pub struct TrialBalance {
    pub as_of_date: Date,
    /// One line per account, in stored order.
    pub balances: Vec<AccountBalance>,
    pub total_debits: Decimal,
    pub total_credits: Decimal,
    /// Whether the two columns sum to the same amount.
    pub is_balanced: bool,
}

} // verus!
