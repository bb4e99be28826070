//! The storage interface of the ledger, the in-memory store that implements
//! it, and the queries over stored accounts and transactions.

use vstd::prelude::*;

use crate::calendar::{date_le, Date};
use crate::decimal::{fits, Decimal};
use crate::replay::{replay, replay_balance};
use crate::types::{
    normal_side, Account, AccountBalance, AccountBalanceView, AccountType, AccountView, Entry,
    EntryType, LedgerError, LedgerResult, Transaction, TransactionView, TrialBalance,
};

verus! {

pub open spec fn account_views(s: Seq<Account>) -> Seq<AccountView> {
    s.map_values(|a: Account| a@)
}

pub open spec fn transaction_views(s: Seq<Transaction>) -> Seq<TransactionView> {
    s.map_values(|t: Transaction| t@)
}

pub open spec fn account_ids_unique(s: Seq<AccountView>) -> bool {
    forall|i: int, j: int|
        0 <= i < s.len() && 0 <= j < s.len() && #[trigger] s[i].id == #[trigger] s[j].id ==> i
            == j
}

pub open spec fn transaction_ids_unique(s: Seq<TransactionView>) -> bool {
    forall|i: int, j: int|
        0 <= i < s.len() && 0 <= j < s.len() && #[trigger] s[i].id == #[trigger] s[j].id ==> i
            == j
}

pub open spec fn has_account(s: Seq<AccountView>, id: Seq<char>) -> bool {
    exists|i: int| 0 <= i < s.len() && #[trigger] s[i].id == id
}

/// Where the account `id` stands in `s`.
pub open spec fn account_pos(s: Seq<AccountView>, id: Seq<char>) -> int {
    choose|i: int| 0 <= i < s.len() && #[trigger] s[i].id == id
}

/// The account `id` of `s`, if there is one.
pub open spec fn find_account(s: Seq<AccountView>, id: Seq<char>) -> Option<AccountView> {
    if has_account(s, id) {
        Some(s[account_pos(s, id)])
    } else {
        None
    }
}

/// `s` with `a` in place of the account of the same id, or with `a` added.
pub open spec fn upsert_account(s: Seq<AccountView>, a: AccountView) -> Seq<AccountView> {
    if has_account(s, a.id) {
        s.update(account_pos(s, a.id), a)
    } else {
        s.push(a)
    }
}

pub open spec fn has_transaction(s: Seq<TransactionView>, id: Seq<char>) -> bool {
    exists|i: int| 0 <= i < s.len() && #[trigger] s[i].id == id
}

pub open spec fn transaction_pos(s: Seq<TransactionView>, id: Seq<char>) -> int {
    choose|i: int| 0 <= i < s.len() && #[trigger] s[i].id == id
}

pub open spec fn find_transaction(s: Seq<TransactionView>, id: Seq<char>) -> Option<
    TransactionView,
> {
    if has_transaction(s, id) {
        Some(s[transaction_pos(s, id)])
    } else {
        None
    }
}

/// `s` with `t` in place of the transaction of the same id, or with `t` added.
pub open spec fn upsert_transaction(s: Seq<TransactionView>, t: TransactionView) -> Seq<
    TransactionView,
> {
    if has_transaction(s, t.id) {
        s.update(transaction_pos(s, t.id), t)
    } else {
        s.push(t)
    }
}

/// The accounts of `s` whose type is `t`, all of them where `t` is `None`,
/// in stored order.
pub open spec fn accounts_of_type(s: Seq<AccountView>, t: Option<AccountType>) -> Seq<AccountView>
    decreases s.len(),
{
    if s.len() == 0 {
        s
    } else {
        let rest = accounts_of_type(s.drop_last(), t);
        if t is None || s.last().account_type == t.unwrap() {
            rest.push(s.last())
        } else {
            rest
        }
    }
}

/// Whether a transaction dated `d` lies in the optional bounds.
pub open spec fn in_range(d: Date, start: Option<Date>, end: Option<Date>) -> bool {
    (start is None || date_le(start.unwrap(), d)) && (end is None || date_le(d, end.unwrap()))
}

/// Whether some entry of `t` posts to the account `id`.
pub open spec fn touches(t: TransactionView, id: Seq<char>) -> bool {
    exists|i: int| 0 <= i < t.entries.len() && #[trigger] t.entries[i].account_id@ == id
}

/// The transactions of `s` dated within the bounds that post to `id` (or
/// all that are within the bounds where `id` is `None`), in stored order.
pub open spec fn transactions_matching(
    s: Seq<TransactionView>,
    id: Option<Seq<char>>,
    start: Option<Date>,
    end: Option<Date>,
) -> Seq<TransactionView>
    decreases s.len(),
{
    if s.len() == 0 {
        s
    } else {
        let rest = transactions_matching(s.drop_last(), id, start, end);
        let t = s.last();
        if in_range(t.date, start, end) && (id is None || touches(t, id.unwrap())) {
            rest.push(t)
        } else {
            rest
        }
    }
}

pub open spec fn account_option_view(o: Option<Account>) -> Option<AccountView> {
    match o {
        Some(a) => Some(a@),
        None => None,
    }
}

pub open spec fn transaction_option_view(o: Option<Transaction>) -> Option<TransactionView> {
    match o {
        Some(t) => Some(t@),
        None => None,
    }
}

/// The debit column of a line whose account has type `t` and signed
/// balance `b`.
pub open spec fn debit_column(b: int, t: AccountType) -> Option<int> {
    if normal_side(t) == EntryType::Debit {
        if b >= 0 {
            Some(b)
        } else {
            None
        }
    } else if b >= 0 {
        None
    } else {
        Some(-b)
    }
}

/// The credit column of a line whose account has type `t` and signed
/// balance `b`.
pub open spec fn credit_column(b: int, t: AccountType) -> Option<int> {
    if normal_side(t) == EntryType::Debit {
        if b >= 0 {
            None
        } else {
            Some(-b)
        }
    } else if b >= 0 {
        Some(b)
    } else {
        None
    }
}

pub open spec fn column_value(o: Option<int>) -> int {
    match o {
        Some(v) => v,
        None => 0,
    }
}

pub open spec fn balance_line(a: AccountView, b: int) -> AccountBalanceView {
    AccountBalanceView {
        account: a,
        debit_balance: debit_column(b, a.account_type),
        credit_balance: credit_column(b, a.account_type),
    }
}

/// The trial balance of `accts` as of `as_of`: its lines and its two column
/// totals, or `None` where a replayed balance, its magnitude or a running
/// total cannot be held.
pub open spec fn trial(accts: Seq<AccountView>, txns: Seq<TransactionView>, as_of: Date) -> Option<
    (Seq<AccountBalanceView>, int, int),
>
    decreases accts.len(),
{
    if accts.len() == 0 {
        Some((Seq::empty(), 0, 0))
    } else {
        match trial(accts.drop_last(), txns, as_of) {
            None => None,
            Some(prev) => {
                let a = accts.last();
                match replay(txns, a.id, a.account_type, as_of) {
                    None => None,
                    Some(b) => {
                        let x = column_value(debit_column(b, a.account_type));
                        let y = column_value(credit_column(b, a.account_type));
                        if fits(x) && fits(y) && fits(prev.1 + x) && fits(prev.2 + y) {
                            Some((prev.0.push(balance_line(a, b)), prev.1 + x, prev.2 + y))
                        } else {
                            None
                        }
                    },
                }
            },
        }
    }
}

/// The lines of `lines` whose account has type `t`, in order.
pub open spec fn lines_of_type(lines: Seq<AccountBalanceView>, t: AccountType) -> Seq<
    AccountBalanceView,
>
    decreases lines.len(),
{
    if lines.len() == 0 {
        lines
    } else {
        let rest = lines_of_type(lines.drop_last(), t);
        if lines.last().account.account_type == t {
            rest.push(lines.last())
        } else {
            rest
        }
    }
}

pub open spec fn line_views(s: Seq<AccountBalance>) -> Seq<AccountBalanceView> {
    s.map_values(|l: AccountBalance| l@)
}


/// Trial-balance lines grouped by the type of their account, each group in
/// stored order.
#[derive(Debug)]
pub struct BalancesByType {
    pub assets: Vec<AccountBalance>,
    pub liabilities: Vec<AccountBalance>,
    pub equity: Vec<AccountBalance>,
    pub income: Vec<AccountBalance>,
    pub expenses: Vec<AccountBalance>,
}

impl BalancesByType {
    /// The group of account type `t`, as views.
    pub open spec fn group_view(&self, t: AccountType) -> Seq<AccountBalanceView> {
        match t {
            AccountType::Asset => line_views(self.assets@),
            AccountType::Liability => line_views(self.liabilities@),
            AccountType::Equity => line_views(self.equity@),
            AccountType::Income => line_views(self.income@),
            AccountType::Expense => line_views(self.expenses@),
        }
    }

    /// Each group holds the lines of `lines` of its type, in order.
    pub open spec fn groups_lines(&self, lines: Seq<AccountBalanceView>) -> bool {
        forall|t: AccountType| #[trigger] self.group_view(t) == lines_of_type(lines, t)
    }

    /// Sorts `lines` into groups by account type, keeping their order.
    pub fn group(lines: &Vec<AccountBalance>) -> (r: BalancesByType)
        ensures
            r.groups_lines(line_views(lines@)),
    {
        let mut r = BalancesByType {
            assets: Vec::new(),
            liabilities: Vec::new(),
            equity: Vec::new(),
            income: Vec::new(),
            expenses: Vec::new(),
        };
        let ghost all = line_views(lines@);
        let mut i: usize = 0;
        proof {
            assert forall|t: AccountType| #[trigger] r.group_view(t) == lines_of_type(all.take(0), t) by {
                assert(r.group_view(t) =~= Seq::<AccountBalanceView>::empty());
                assert(all.take(0) =~= Seq::<AccountBalanceView>::empty());
            }
        }
        while i < lines.len()
            invariant
                i <= lines.len(),
                all == line_views(lines@),
                forall|t: AccountType| #[trigger] r.group_view(t) == lines_of_type(all.take(i as int), t),
            decreases lines.len() - i,
        {
            let line = lines[i].clone();
            let ghost before = r;
            proof {
                assert(all.take(i + 1).drop_last() =~= all.take(i as int));
                assert(all.take(i + 1).last() == line@);
            }
            match line.account.account_type {
                AccountType::Asset => r.assets.push(line),
                AccountType::Liability => r.liabilities.push(line),
                AccountType::Equity => r.equity.push(line),
                AccountType::Income => r.income.push(line),
                AccountType::Expense => r.expenses.push(line),
            }
            proof {
                assert forall|t: AccountType| #[trigger] r.group_view(t) == lines_of_type(all.take(i + 1), t) by {
                    if t == all[i as int].account.account_type {
                        assert(r.group_view(t) =~= before.group_view(t).push(all[i as int]));
                    } else {
                        assert(r.group_view(t) =~= before.group_view(t));
                    }
                }
            }
            i += 1;
        }
        proof {
            assert(all.take(i as int) =~= all);
        }
        r
    }

    /// The group of account type `account_type`.
    pub fn get(&self, account_type: AccountType) -> (r: &Vec<AccountBalance>)
        ensures
            line_views(r@) == self.group_view(account_type),
    {
        match account_type {
            AccountType::Asset => &self.assets,
            AccountType::Liability => &self.liabilities,
            AccountType::Equity => &self.equity,
            AccountType::Income => &self.income,
            AccountType::Expense => &self.expenses,
        }
    }
}

/// The stored state: accounts and transactions in the order they were first
/// saved.
pub struct StorageView {
    pub accounts: Seq<AccountView>,
    pub transactions: Seq<TransactionView>,
}

/// The balance a balance query reports: the running balance without a date,
/// else the replayed balance.
pub open spec fn reported_balance(s: StorageView, id: Seq<char>, as_of: Option<Date>) -> Option<int> {
    match find_account(s.accounts, id) {
        None => None,
        Some(a) => match as_of {
            None => Some(a.balance),
            Some(d) => replay(s.transactions, a.id, a.account_type, d),
        },
    }
}

/// Ids are unique among accounts and among transactions.
pub open spec fn ids_unique(s: StorageView) -> bool {
    account_ids_unique(s.accounts) && transaction_ids_unique(s.transactions)
}

/// A store held in memory, in the order of first saving. Ids are unique
/// among accounts and among transactions.
#[derive(Debug)]
pub struct MemoryStorage {
    accounts: Vec<Account>,
    transactions: Vec<Transaction>,
}

impl View for MemoryStorage {
    type V = StorageView;

    closed spec fn view(&self) -> StorageView {
        StorageView {
            accounts: account_views(self.accounts@),
            transactions: transaction_views(self.transactions@),
        }
    }
}

impl Default for MemoryStorage {
    fn default() -> (r: MemoryStorage)
        ensures
            r@.accounts.len() == 0,
            r@.transactions.len() == 0,
    {
        MemoryStorage::new()
    }
}

impl MemoryStorage {
    /// Ids are unique among accounts and among transactions.
    #[verifier::type_invariant]
    spec fn wf(&self) -> bool {
        ids_unique(self@)
    }

    /// An empty store.
    pub fn new() -> (r: MemoryStorage)
        ensures
            r@.accounts.len() == 0,
            r@.transactions.len() == 0,
    {
        let r = MemoryStorage { accounts: Vec::new(), transactions: Vec::new() };
        proof {
            assert(r@.accounts =~= Seq::<AccountView>::empty());
            assert(r@.transactions =~= Seq::<TransactionView>::empty());
        }
        r
    }

    /// Removes every account and transaction.
    pub fn clear(&mut self)
        ensures
            final(self)@.accounts.len() == 0,
            final(self)@.transactions.len() == 0,
    {
        proof {
            use_type_invariant(&*self);
        }
        let accounts: Vec<Account> = Vec::new();
        proof {
            assert(account_views(accounts@) =~= Seq::<AccountView>::empty());
        }
        self.accounts = accounts;
        let transactions: Vec<Transaction> = Vec::new();
        proof {
            assert(transaction_views(transactions@) =~= Seq::<TransactionView>::empty());
        }
        self.transactions = transactions;
        proof {
            assert(self@.accounts =~= Seq::<AccountView>::empty());
            assert(self@.transactions =~= Seq::<TransactionView>::empty());
        }
    }

    /// Index of the account `id`.
    fn account_index(&self, id: &str) -> (r: Option<usize>)
        ensures
            r.is_some() == has_account(self@.accounts, id@),
            r.is_some() ==> r.unwrap() == account_pos(self@.accounts, id@) && r.unwrap()
                < self@.accounts.len(),
    {
        proof {
            use_type_invariant(self);
        }
        let key = id.to_owned();
        let mut i: usize = 0;
        while i < self.accounts.len()
            invariant
                i <= self.accounts.len(),
                key@ == id@,
                self.wf(),
                forall|j: int| 0 <= j < i ==> #[trigger] self.accounts@[j].id@ != id@,
            decreases self.accounts.len() - i,
        {
            if self.accounts[i].id == key {
                proof {
                    assert(self@.accounts[i as int].id == id@);
                    let p = account_pos(self@.accounts, id@);
                    assert(self@.accounts[p].id == id@);
                }
                return Some(i);
            }
            i += 1;
        }
        proof {
            assert forall|j: int| 0 <= j < self@.accounts.len() implies #[trigger] self@.accounts[j].id
                != id@ by {
                assert(self.accounts@[j].id@ != id@);
            }
        }
        None
    }

    /// Index of the transaction `id`.
    fn transaction_index(&self, id: &str) -> (r: Option<usize>)
        ensures
            r.is_some() == has_transaction(self@.transactions, id@),
            r.is_some() ==> r.unwrap() == transaction_pos(self@.transactions, id@) && r.unwrap()
                < self@.transactions.len(),
    {
        proof {
            use_type_invariant(self);
        }
        let key = id.to_owned();
        let mut i: usize = 0;
        while i < self.transactions.len()
            invariant
                i <= self.transactions.len(),
                key@ == id@,
                self.wf(),
                forall|j: int| 0 <= j < i ==> #[trigger] self.transactions@[j].id@ != id@,
            decreases self.transactions.len() - i,
        {
            if self.transactions[i].id == key {
                proof {
                    assert(self@.transactions[i as int].id == id@);
                    let p = transaction_pos(self@.transactions, id@);
                    assert(self@.transactions[p].id == id@);
                }
                return Some(i);
            }
            i += 1;
        }
        proof {
            assert forall|j: int| 0 <= j < self@.transactions.len() implies #[trigger] self@.transactions[j].id
                != id@ by {
                assert(self.transactions@[j].id@ != id@);
            }
        }
        None
    }

    /// Adds the account, or replaces the stored account of the same id.
    pub fn save_account(&mut self, account: &Account) -> (r: LedgerResult<()>)
        ensures
            r is Ok,
            final(self)@.accounts == upsert_account(old(self)@.accounts, account@),
            final(self)@.transactions == old(self)@.transactions,
    {
        proof {
            use_type_invariant(&*self);
        }
        let copy = account.clone();
        match self.account_index(account.id.as_str()) {
            Some(k) => {
                let mut accounts: Vec<Account> = Vec::new();
                core::mem::swap(&mut self.accounts, &mut accounts);
                accounts.set(k, copy);
                proof {
                    assert(account_views(accounts@) =~= old(self)@.accounts.update(k as int, account@));
                }
                self.accounts = accounts;
            },
            None => {
                let mut accounts: Vec<Account> = Vec::new();
                core::mem::swap(&mut self.accounts, &mut accounts);
                accounts.push(copy);
                proof {
                    assert(account_views(accounts@) =~= old(self)@.accounts.push(account@));
                    assert forall|i: int, j: int|
                        0 <= i < account_views(accounts@).len() && 0 <= j < account_views(accounts@).len()
                            && #[trigger] account_views(accounts@)[i].id == #[trigger] account_views(accounts@)[j].id
                        implies i == j by {
                        if i < old(self)@.accounts.len() && j < old(self)@.accounts.len() {
                        } else if i < old(self)@.accounts.len() {
                            assert(old(self)@.accounts[i].id == account@.id);
                        } else if j < old(self)@.accounts.len() {
                            assert(old(self)@.accounts[j].id == account@.id);
                        }
                    }
                }
                self.accounts = accounts;
            },
        }
        proof {
            assert(self@.transactions =~= old(self)@.transactions);
        }
        Ok(())
    }

    /// The account `id`, if stored.
    pub fn get_account(&self, id: &str) -> (r: LedgerResult<Option<Account>>)
        ensures
            r is Ok,
            account_option_view(r->Ok_0) == find_account(self@.accounts, id@),
    {
        proof {
            use_type_invariant(self);
        }
        match self.account_index(id) {
            Some(k) => Ok(Some(self.accounts[k].clone())),
            None => Ok(None),
        }
    }

    /// The stored accounts of the given type, or all of them, in stored
    /// order.
    pub fn list_accounts(&self, account_type: Option<AccountType>) -> (r: LedgerResult<Vec<Account>>)
        ensures
            r is Ok,
            account_views(r->Ok_0@) == accounts_of_type(self@.accounts, account_type),
    {
        proof {
            use_type_invariant(self);
        }
        let mut out: Vec<Account> = Vec::new();
        let mut i: usize = 0;
        while i < self.accounts.len()
            invariant
                i <= self.accounts.len(),
                account_views(out@) == accounts_of_type(self@.accounts.take(i as int), account_type),
            decreases self.accounts.len() - i,
        {
            let a = &self.accounts[i];
            proof {
                assert(self@.accounts.take(i + 1).drop_last() =~= self@.accounts.take(i as int));
            }
            let keep = match account_type {
                None => true,
                Some(t) => a.account_type == t,
            };
            if keep {
                let ghost before = out@;
                out.push(a.clone());
                proof {
                    assert(account_views(out@) =~= account_views(before).push(a@));
                }
            }
            i += 1;
        }
        proof {
            assert(self@.accounts.take(i as int) =~= self@.accounts);
        }
        Ok(out)
    }

    /// Replaces the stored account of the same id.
    pub fn update_account(&mut self, account: &Account) -> (r: LedgerResult<()>)
        ensures
            r is Ok == has_account(old(self)@.accounts, account@.id),
            r is Ok ==> final(self)@.accounts == upsert_account(old(self)@.accounts, account@),
            r is Err ==> final(self)@.accounts == old(self)@.accounts && r->Err_0 is AccountNotFound,
            final(self)@.transactions == old(self)@.transactions,
    {
        proof {
            use_type_invariant(&*self);
        }
        match self.account_index(account.id.as_str()) {
            Some(k) => {
                let mut accounts: Vec<Account> = Vec::new();
                core::mem::swap(&mut self.accounts, &mut accounts);
                accounts.set(k, account.clone());
                proof {
                    assert(account_views(accounts@) =~= old(self)@.accounts.update(k as int, account@));
                    assert(self@.transactions =~= old(self)@.transactions);
                }
                self.accounts = accounts;
                Ok(())
            },
            None => Err(LedgerError::AccountNotFound(account.id.clone())),
        }
    }

    /// Removes the account `id`.
    pub fn delete_account(&mut self, id: &str) -> (r: LedgerResult<()>)
        ensures
            r is Ok == has_account(old(self)@.accounts, id@),
            r is Ok ==> final(self)@.accounts == old(self)@.accounts.remove(
                account_pos(old(self)@.accounts, id@),
            ),
            r is Err ==> final(self)@.accounts == old(self)@.accounts && r->Err_0 is AccountNotFound,
            final(self)@.transactions == old(self)@.transactions,
    {
        proof {
            use_type_invariant(&*self);
        }
        match self.account_index(id) {
            Some(k) => {
                let mut accounts: Vec<Account> = Vec::new();
                core::mem::swap(&mut self.accounts, &mut accounts);
                let _ = accounts.remove(k);
                proof {
                    let s = old(self)@.accounts;
                    assert(account_views(accounts@) =~= s.remove(k as int));
                    assert(self@.transactions =~= old(self)@.transactions);
                    assert forall|i: int, j: int|
                        0 <= i < account_views(accounts@).len() && 0 <= j < account_views(accounts@).len()
                            && #[trigger] account_views(accounts@)[i].id == #[trigger] account_views(accounts@)[j].id
                        implies i == j by {
                        let i2 = if i < k { i } else { i + 1 };
                        let j2 = if j < k { j } else { j + 1 };
                        assert(s[i2].id == s[j2].id);
                    }
                }
                self.accounts = accounts;
                Ok(())
            },
            None => Err(LedgerError::AccountNotFound(id.to_owned())),
        }
    }

    /// Adds the transaction, or replaces the stored transaction of the same
    /// id.
    pub fn save_transaction(&mut self, transaction: &Transaction) -> (r: LedgerResult<()>)
        ensures
            r is Ok,
            final(self)@.transactions == upsert_transaction(
                old(self)@.transactions,
                transaction@,
            ),
            final(self)@.accounts == old(self)@.accounts,
    {
        proof {
            use_type_invariant(&*self);
        }
        let copy = transaction.clone();
        match self.transaction_index(transaction.id.as_str()) {
            Some(k) => {
                let mut transactions: Vec<Transaction> = Vec::new();
                core::mem::swap(&mut self.transactions, &mut transactions);
                transactions.set(k, copy);
                proof {
                    assert(transaction_views(transactions@) =~= old(self)@.transactions.update(
                        k as int,
                        transaction@,
                    ));
                }
                self.transactions = transactions;
            },
            None => {
                let mut transactions: Vec<Transaction> = Vec::new();
                core::mem::swap(&mut self.transactions, &mut transactions);
                transactions.push(copy);
                proof {
                    assert(transaction_views(transactions@) =~= old(self)@.transactions.push(transaction@));
                    assert forall|i: int, j: int|
                        0 <= i < transaction_views(transactions@).len() && 0 <= j < transaction_views(transactions@).len()
                            && #[trigger] transaction_views(transactions@)[i].id
                            == #[trigger] transaction_views(transactions@)[j].id implies i == j by {
                        if i < old(self)@.transactions.len() && j < old(self)@.transactions.len() {
                        } else if i < old(self)@.transactions.len() {
                            assert(old(self)@.transactions[i].id == transaction@.id);
                        } else if j < old(self)@.transactions.len() {
                            assert(old(self)@.transactions[j].id == transaction@.id);
                        }
                    }
                }
                self.transactions = transactions;
            },
        }
        proof {
            assert(self@.accounts =~= old(self)@.accounts);
        }
        Ok(())
    }

    /// The transaction `id`, if stored.
    pub fn get_transaction(&self, id: &str) -> (r: LedgerResult<Option<Transaction>>)
        ensures
            r is Ok,
            transaction_option_view(r->Ok_0) == find_transaction(self@.transactions, id@),
    {
        proof {
            use_type_invariant(self);
        }
        match self.transaction_index(id) {
            Some(k) => Ok(Some(self.transactions[k].clone())),
            None => Ok(None),
        }
    }

    /// Replaces the stored transaction of the same id.
    pub fn update_transaction(&mut self, transaction: &Transaction) -> (r: LedgerResult<()>)
        ensures
            r is Ok == has_transaction(old(self)@.transactions, transaction@.id),
            r is Ok ==> final(self)@.transactions == upsert_transaction(
                old(self)@.transactions,
                transaction@,
            ),
            r is Err ==> final(self)@.transactions == old(self)@.transactions && r->Err_0 is TransactionNotFound,
            final(self)@.accounts == old(self)@.accounts,
    {
        proof {
            use_type_invariant(&*self);
        }
        match self.transaction_index(transaction.id.as_str()) {
            Some(k) => {
                let mut transactions: Vec<Transaction> = Vec::new();
                core::mem::swap(&mut self.transactions, &mut transactions);
                transactions.set(k, transaction.clone());
                proof {
                    assert(transaction_views(transactions@) =~= old(self)@.transactions.update(
                        k as int,
                        transaction@,
                    ));
                    assert(self@.accounts =~= old(self)@.accounts);
                }
                self.transactions = transactions;
                Ok(())
            },
            None => Err(LedgerError::TransactionNotFound(transaction.id.clone())),
        }
    }

    /// Removes the transaction `id`. Account balances are left as they are.
    pub fn delete_transaction(&mut self, id: &str) -> (r: LedgerResult<()>)
        ensures
            r is Ok == has_transaction(old(self)@.transactions, id@),
            r is Ok ==> final(self)@.transactions == old(self)@.transactions.remove(
                transaction_pos(old(self)@.transactions, id@),
            ),
            r is Err ==> final(self)@.transactions == old(self)@.transactions && r->Err_0 is TransactionNotFound,
            final(self)@.accounts == old(self)@.accounts,
    {
        proof {
            use_type_invariant(&*self);
        }
        match self.transaction_index(id) {
            Some(k) => {
                let mut transactions: Vec<Transaction> = Vec::new();
                core::mem::swap(&mut self.transactions, &mut transactions);
                let _ = transactions.remove(k);
                proof {
                    let s = old(self)@.transactions;
                    assert(transaction_views(transactions@) =~= s.remove(k as int));
                    assert(self@.accounts =~= old(self)@.accounts);
                    assert forall|i: int, j: int|
                        0 <= i < transaction_views(transactions@).len() && 0 <= j < transaction_views(transactions@).len()
                            && #[trigger] transaction_views(transactions@)[i].id
                            == #[trigger] transaction_views(transactions@)[j].id implies i == j by {
                        let i2 = if i < k { i } else { i + 1 };
                        let j2 = if j < k { j } else { j + 1 };
                        assert(s[i2].id == s[j2].id);
                    }
                }
                self.transactions = transactions;
                Ok(())
            },
            None => Err(LedgerError::TransactionNotFound(id.to_owned())),
        }
    }

    /// The stored transactions dated within the optional bounds (both
    /// inclusive), in stored order.
    pub fn get_transactions(&self, start_date: Option<Date>, end_date: Option<Date>) -> (r:
        LedgerResult<Vec<Transaction>>)
        ensures
            r is Ok,
            transaction_views(r->Ok_0@) == transactions_matching(
                self@.transactions,
                None,
                start_date,
                end_date,
            ),
    {
        proof {
            use_type_invariant(self);
        }
        Ok(self.select_transactions(None, start_date, end_date))
    }

    /// The stored transactions dated within the optional bounds that post to
    /// the account `account_id`, in stored order.
    pub fn get_account_transactions(
        &self,
        account_id: &str,
        start_date: Option<Date>,
        end_date: Option<Date>,
    ) -> (r: LedgerResult<Vec<Transaction>>)
        ensures
            r is Ok,
            transaction_views(r->Ok_0@) == transactions_matching(
                self@.transactions,
                Some(account_id@),
                start_date,
                end_date,
            ),
    {
        let key = account_id.to_owned();
        Ok(self.select_transactions(Some(&key), start_date, end_date))
    }

    fn select_transactions(
        &self,
        account_id: Option<&String>,
        start_date: Option<Date>,
        end_date: Option<Date>,
    ) -> (r: Vec<Transaction>)
        ensures
            transaction_views(r@) == transactions_matching(
                self@.transactions,
                text_ref_option(account_id),
                start_date,
                end_date,
            ),
    {
        let ghost id = text_ref_option(account_id);
        let mut out: Vec<Transaction> = Vec::new();
        let mut i: usize = 0;
        while i < self.transactions.len()
            invariant
                i <= self.transactions.len(),
                id == text_ref_option(account_id),
                transaction_views(out@) == transactions_matching(
                    self@.transactions.take(i as int),
                    id,
                    start_date,
                    end_date,
                ),
            decreases self.transactions.len() - i,
        {
            let t = &self.transactions[i];
            proof {
                assert(self@.transactions.take(i + 1).drop_last() =~= self@.transactions.take(
                    i as int,
                ));
                assert(self@.transactions.take(i + 1).last() == t@);
            }
            let after_start = match start_date {
                None => true,
                Some(s) => s.is_on_or_before(&t.date),
            };
            let before_end = match end_date {
                None => true,
                Some(e) => t.date.is_on_or_before(&e),
            };
            let relevant = match account_id {
                None => true,
                Some(a) => posts_to(&t.entries, a),
            };
            if after_start && before_end && relevant {
                let ghost before = out@;
                out.push(t.clone());
                proof {
                    assert(transaction_views(out@) =~= transaction_views(before).push(t@));
                }
            }
            i += 1;
        }
        proof {
            assert(self@.transactions.take(i as int) =~= self@.transactions);
        }
        out
    }
    /// The balance of the account `account_id`: its running balance where no
    /// date is given, else the balance rebuilt by replaying the transactions
    /// dated on or before `as_of_date`.
    pub fn get_account_balance(&self, account_id: &str, as_of_date: Option<Date>) -> (r:
        LedgerResult<Decimal>)
        ensures
            !has_account(self@.accounts, account_id@) ==> r is Err && r->Err_0 is AccountNotFound
                && r->Err_0->AccountNotFound_0@ == account_id@,
            has_account(self@.accounts, account_id@) ==> match as_of_date {
                None => r is Ok && r->Ok_0@ == find_account(
                    self@.accounts,
                    account_id@,
                ).unwrap().balance,
                Some(d) => {
                    let a = find_account(self@.accounts, account_id@).unwrap();
                    let rb = replay(self@.transactions, a.id, a.account_type, d);
                    &&& r is Ok == rb is Some
                    &&& r is Ok ==> r->Ok_0@ == rb.unwrap()
                    &&& r is Err ==> r->Err_0 is Validation
                },
            },
    {
        proof {
            use_type_invariant(self);
        }
        let k = match self.account_index(account_id) {
            Some(k) => k,
            None => {
                return Err(LedgerError::AccountNotFound(account_id.to_owned()));
            },
        };
        let a = &self.accounts[k];
        match as_of_date {
            None => Ok(a.balance),
            Some(d) => match replay_balance(&self.transactions, &a.id, a.account_type, d) {
                Some(b) => Ok(b),
                None => Err(LedgerError::Validation("balance out of range".to_string())),
            },
        }
    }

    /// The trial balance as of `as_of_date`: each account's replayed balance
    /// put on the debit or the credit side, and the two column totals.
    pub fn get_trial_balance(&self, as_of_date: Date) -> (r: LedgerResult<TrialBalance>)
        ensures
            r is Ok == trial(self@.accounts, self@.transactions, as_of_date) is Some,
            r is Ok ==> {
                let t = trial(self@.accounts, self@.transactions, as_of_date).unwrap();
                let tb = r->Ok_0;
                &&& tb.as_of_date == as_of_date
                &&& line_views(tb.balances@) == t.0
                &&& tb.total_debits@ == t.1
                &&& tb.total_credits@ == t.2
                &&& tb.is_balanced == (t.1 == t.2)
            },
            r is Err ==> r->Err_0 is Validation,
    {
        proof {
            use_type_invariant(self);
        }
        let ghost accts = self@.accounts;
        let ghost txns = self@.transactions;
        let mut lines: Vec<AccountBalance> = Vec::new();
        let mut total_debits = Decimal::zero();
        let mut total_credits = Decimal::zero();
        let mut i: usize = 0;
        while i < self.accounts.len()
            invariant
                i <= self.accounts.len(),
                accts == self@.accounts,
                txns == self@.transactions,
                trial(accts.take(i as int), txns, as_of_date) == Some(
                    (line_views(lines@), total_debits@, total_credits@),
                ),
            decreases self.accounts.len() - i,
        {
            let a = &self.accounts[i];
            proof {
                assert(accts.take(i + 1).drop_last() =~= accts.take(i as int));
                assert(accts.take(i + 1).last() == a@);
            }
            let b = match replay_balance(&self.transactions, &a.id, a.account_type, as_of_date) {
                Some(b) => b,
                None => {
                    proof {
                        self.lemma_trial_prefix_none(as_of_date, i as int + 1);
                    }
                    return Err(LedgerError::Validation("balance out of range".to_string()));
                },
            };
            let magnitude = if b.is_negative() {
                match b.checked_neg() {
                    Some(m) => m,
                    None => {
                        proof {
                            self.lemma_trial_prefix_none(as_of_date, i as int + 1);
                        }
                        return Err(LedgerError::Validation("balance out of range".to_string()));
                    },
                }
            } else {
                b
            };
            let on_debit_side = (a.account_type.normal_balance() == EntryType::Debit)
                == !b.is_negative();
            let (debit_balance, credit_balance) = if on_debit_side {
                (Some(magnitude), None)
            } else {
                (None, Some(magnitude))
            };
            let sums = if on_debit_side {
                (total_debits.checked_add(&magnitude), Some(total_credits))
            } else {
                (Some(total_debits), total_credits.checked_add(&magnitude))
            };
            match sums {
                (Some(d), Some(c)) => {
                    total_debits = d;
                    total_credits = c;
                },
                _ => {
                    proof {
                        self.lemma_trial_prefix_none(as_of_date, i as int + 1);
                    }
                    return Err(LedgerError::Validation("trial balance total out of range".to_string()));
                },
            }
            let ghost before = lines@;
            lines.push(AccountBalance { account: a.clone(), debit_balance, credit_balance });
            proof {
                assert(line_views(lines@) =~= line_views(before).push(balance_line(a@, b@)));
            }
            i += 1;
        }
        proof {
            assert(accts.take(i as int) =~= accts);
        }
        let is_balanced = total_debits.units == total_credits.units;
        Ok(TrialBalance { as_of_date, balances: lines, total_debits, total_credits, is_balanced })
    }

    proof fn lemma_trial_prefix_none(&self, as_of: Date, i: int)
        requires
            0 <= i <= self@.accounts.len(),
            trial(self@.accounts.take(i), self@.transactions, as_of) is None,
        ensures
            trial(self@.accounts, self@.transactions, as_of) is None,
        decreases self@.accounts.len() - i,
    {
        let accts = self@.accounts;
        if i < accts.len() {
            assert(accts.take(i + 1).drop_last() =~= accts.take(i));
            self.lemma_trial_prefix_none(as_of, i + 1);
        } else {
            assert(accts.take(i) =~= accts);
        }
    }

    /// The trial-balance lines as of `as_of_date`, grouped by account type.
    pub fn get_account_balances_by_type(&self, as_of_date: Date) -> (r: LedgerResult<BalancesByType>)
        ensures
            r is Ok == trial(self@.accounts, self@.transactions, as_of_date) is Some,
            r is Ok ==> r->Ok_0.groups_lines(
                trial(self@.accounts, self@.transactions, as_of_date).unwrap().0,
            ),
            r is Err ==> r->Err_0 is Validation,
    {
        proof {
            use_type_invariant(self);
        }
        let tb = self.get_trial_balance(as_of_date)?;
        Ok(BalancesByType::group(&tb.balances))
    }
}

pub open spec fn text_ref_option(o: Option<&String>) -> Option<Seq<char>> {
    match o {
        Some(s) => Some(s@),
        None => None,
    }
}

/// Whether some entry posts to the account `account_id`.
pub fn posts_to(entries: &Vec<Entry>, account_id: &String) -> (r: bool)
    ensures
        r == exists|i: int| 0 <= i < entries@.len() && #[trigger] entries@[i].account_id@ == account_id@,
{
    let mut i: usize = 0;
    while i < entries.len()
        invariant
            i <= entries.len(),
            forall|j: int| 0 <= j < i ==> #[trigger] entries@[j].account_id@ != account_id@,
        decreases entries.len() - i,
    {
        if entries[i].account_id == *account_id {
            return true;
        }
        i += 1;
    }
    false
}

/// Persistence for accounts and transactions, and the balance queries a
/// backend may answer from its own indexes as long as the answers are those
/// of the replay and trial-balance rules. `contents` is what is stored. A
/// backend may fail an operation with a `Storage` error, which leaves the
/// contents as they were; one for which `never_fails` holds does not.
pub trait LedgerStorage {
    spec fn contents(&self) -> StorageView;

    spec fn never_fails(&self) -> bool;

    fn save_account(&mut self, account: &Account) -> (r: LedgerResult<()>)
        ensures
            ids_unique(final(self).contents()),
            final(self).never_fails() == old(self).never_fails(),
            r is Ok ==> final(self).contents() == (StorageView {
                accounts: upsert_account(old(self).contents().accounts, account@),
                transactions: old(self).contents().transactions,
            }),
            r is Err ==> final(self).contents() == old(self).contents() && r->Err_0 is Storage,
            old(self).never_fails() ==> r is Ok,
    ;

    fn get_account(&self, account_id: &str) -> (r: LedgerResult<Option<Account>>)
        ensures
            ids_unique(self.contents()),
            r is Ok ==> account_option_view(r->Ok_0) == find_account(
                self.contents().accounts,
                account_id@,
            ),
            r is Err ==> r->Err_0 is Storage,
            self.never_fails() ==> r is Ok,
    ;

    fn list_accounts(&self, account_type: Option<AccountType>) -> (r: LedgerResult<Vec<Account>>)
        ensures
            ids_unique(self.contents()),
            r is Ok ==> account_views(r->Ok_0@) == accounts_of_type(
                self.contents().accounts,
                account_type,
            ),
            r is Err ==> r->Err_0 is Storage,
            self.never_fails() ==> r is Ok,
    ;

    fn update_account(&mut self, account: &Account) -> (r: LedgerResult<()>)
        ensures
            ids_unique(final(self).contents()),
            final(self).never_fails() == old(self).never_fails(),
            r is Ok ==> has_account(old(self).contents().accounts, account@.id)
                && final(self).contents() == (StorageView {
                accounts: upsert_account(old(self).contents().accounts, account@),
                transactions: old(self).contents().transactions,
            }),
            r is Err ==> final(self).contents() == old(self).contents(),
            !has_account(old(self).contents().accounts, account@.id) ==> r is Err
                && r->Err_0 is AccountNotFound,
            old(self).never_fails() && has_account(old(self).contents().accounts, account@.id)
                ==> r is Ok,
    ;

    fn delete_account(&mut self, account_id: &str) -> (r: LedgerResult<()>)
        ensures
            ids_unique(final(self).contents()),
            final(self).never_fails() == old(self).never_fails(),
            r is Ok ==> has_account(old(self).contents().accounts, account_id@)
                && final(self).contents() == (StorageView {
                accounts: old(self).contents().accounts.remove(
                    account_pos(old(self).contents().accounts, account_id@),
                ),
                transactions: old(self).contents().transactions,
            }),
            r is Err ==> final(self).contents() == old(self).contents(),
            !has_account(old(self).contents().accounts, account_id@) ==> r is Err
                && r->Err_0 is AccountNotFound,
            old(self).never_fails() && has_account(old(self).contents().accounts, account_id@)
                ==> r is Ok,
    ;

    fn save_transaction(&mut self, transaction: &Transaction) -> (r: LedgerResult<()>)
        ensures
            ids_unique(final(self).contents()),
            final(self).never_fails() == old(self).never_fails(),
            r is Ok ==> final(self).contents() == (StorageView {
                accounts: old(self).contents().accounts,
                transactions: upsert_transaction(old(self).contents().transactions, transaction@),
            }),
            r is Err ==> final(self).contents() == old(self).contents() && r->Err_0 is Storage,
            old(self).never_fails() ==> r is Ok,
    ;

    fn get_transaction(&self, transaction_id: &str) -> (r: LedgerResult<Option<Transaction>>)
        ensures
            ids_unique(self.contents()),
            r is Ok ==> transaction_option_view(r->Ok_0) == find_transaction(
                self.contents().transactions,
                transaction_id@,
            ),
            r is Err ==> r->Err_0 is Storage,
            self.never_fails() ==> r is Ok,
    ;

    fn get_account_transactions(
        &self,
        account_id: &str,
        start_date: Option<Date>,
        end_date: Option<Date>,
    ) -> (r: LedgerResult<Vec<Transaction>>)
        ensures
            ids_unique(self.contents()),
            r is Ok ==> transaction_views(r->Ok_0@) == transactions_matching(
                self.contents().transactions,
                Some(account_id@),
                start_date,
                end_date,
            ),
            r is Err ==> r->Err_0 is Storage,
            self.never_fails() ==> r is Ok,
    ;

    fn get_transactions(&self, start_date: Option<Date>, end_date: Option<Date>) -> (r:
        LedgerResult<Vec<Transaction>>)
        ensures
            ids_unique(self.contents()),
            r is Ok ==> transaction_views(r->Ok_0@) == transactions_matching(
                self.contents().transactions,
                None,
                start_date,
                end_date,
            ),
            r is Err ==> r->Err_0 is Storage,
            self.never_fails() ==> r is Ok,
    ;

    fn update_transaction(&mut self, transaction: &Transaction) -> (r: LedgerResult<()>)
        ensures
            ids_unique(final(self).contents()),
            final(self).never_fails() == old(self).never_fails(),
            r is Ok ==> has_transaction(old(self).contents().transactions, transaction@.id)
                && final(self).contents() == (StorageView {
                accounts: old(self).contents().accounts,
                transactions: upsert_transaction(old(self).contents().transactions, transaction@),
            }),
            r is Err ==> final(self).contents() == old(self).contents(),
            !has_transaction(old(self).contents().transactions, transaction@.id) ==> r is Err
                && r->Err_0 is TransactionNotFound,
            old(self).never_fails() && has_transaction(
                old(self).contents().transactions,
                transaction@.id,
            ) ==> r is Ok,
    ;

    fn delete_transaction(&mut self, transaction_id: &str) -> (r: LedgerResult<()>)
        ensures
            ids_unique(final(self).contents()),
            final(self).never_fails() == old(self).never_fails(),
            r is Ok ==> has_transaction(old(self).contents().transactions, transaction_id@)
                && final(self).contents() == (StorageView {
                accounts: old(self).contents().accounts,
                transactions: old(self).contents().transactions.remove(
                    transaction_pos(old(self).contents().transactions, transaction_id@),
                ),
            }),
            r is Err ==> final(self).contents() == old(self).contents(),
            !has_transaction(old(self).contents().transactions, transaction_id@) ==> r is Err
                && r->Err_0 is TransactionNotFound,
            old(self).never_fails() && has_transaction(
                old(self).contents().transactions,
                transaction_id@,
            ) ==> r is Ok,
    ;

    /// The running balance without a date, else the balance replayed from
    /// the transactions dated on or before it.
    fn get_account_balance(&self, account_id: &str, as_of_date: Option<Date>) -> (r: LedgerResult<
        Decimal,
    >)
        ensures
            ids_unique(self.contents()),
            r is Ok ==> Some(r->Ok_0@) == reported_balance(
                self.contents(),
                account_id@,
                as_of_date,
            ),
            !has_account(self.contents().accounts, account_id@) ==> r is Err
                && r->Err_0 is AccountNotFound && r->Err_0->AccountNotFound_0@ == account_id@,
            self.never_fails() ==> (r is Ok == reported_balance(
                self.contents(),
                account_id@,
                as_of_date,
            ) is Some),
    ;

    /// The trial balance of the replayed balances as of `as_of_date`.
    fn get_trial_balance(&self, as_of_date: Date) -> (r: LedgerResult<TrialBalance>)
        ensures
            ids_unique(self.contents()),
            r is Ok ==> trial_answer(self.contents(), as_of_date, r->Ok_0),
            self.never_fails() ==> (r is Ok == trial(
                self.contents().accounts,
                self.contents().transactions,
                as_of_date,
            ) is Some),
    ;

    /// The trial-balance lines as of `as_of_date`, grouped by account type.
    fn get_account_balances_by_type(&self, as_of_date: Date) -> (r: LedgerResult<BalancesByType>)
        ensures
            ids_unique(self.contents()),
            r is Ok ==> trial(self.contents().accounts, self.contents().transactions, as_of_date) is Some
                && r->Ok_0.groups_lines(
                trial(self.contents().accounts, self.contents().transactions, as_of_date).unwrap().0,
            ),
            self.never_fails() ==> (r is Ok == trial(
                self.contents().accounts,
                self.contents().transactions,
                as_of_date,
            ) is Some),
    ;
}

/// `tb` is the trial balance of `s` as of `as_of`.
pub open spec fn trial_answer(s: StorageView, as_of: Date, tb: TrialBalance) -> bool {
    let t = trial(s.accounts, s.transactions, as_of);
    &&& t is Some
    &&& tb.as_of_date == as_of
    &&& line_views(tb.balances@) == t.unwrap().0
    &&& tb.total_debits@ == t.unwrap().1
    &&& tb.total_credits@ == t.unwrap().2
    &&& tb.is_balanced == (t.unwrap().1 == t.unwrap().2)
}

impl LedgerStorage for MemoryStorage {
    open spec fn contents(&self) -> StorageView {
        self@
    }

    open spec fn never_fails(&self) -> bool {
        true
    }

    fn save_account(&mut self, account: &Account) -> (r: LedgerResult<()>) {
        let r = MemoryStorage::save_account(self, account);
        proof {
            use_type_invariant(&*self);
        }
        r
    }

    fn get_account(&self, account_id: &str) -> (r: LedgerResult<Option<Account>>) {
        proof {
            use_type_invariant(self);
        }
        MemoryStorage::get_account(self, account_id)
    }

    fn list_accounts(&self, account_type: Option<AccountType>) -> (r: LedgerResult<Vec<Account>>) {
        proof {
            use_type_invariant(self);
        }
        MemoryStorage::list_accounts(self, account_type)
    }

    fn update_account(&mut self, account: &Account) -> (r: LedgerResult<()>) {
        let r = MemoryStorage::update_account(self, account);
        proof {
            use_type_invariant(&*self);
        }
        r
    }

    fn delete_account(&mut self, account_id: &str) -> (r: LedgerResult<()>) {
        let r = MemoryStorage::delete_account(self, account_id);
        proof {
            use_type_invariant(&*self);
        }
        r
    }

    fn save_transaction(&mut self, transaction: &Transaction) -> (r: LedgerResult<()>) {
        let r = MemoryStorage::save_transaction(self, transaction);
        proof {
            use_type_invariant(&*self);
        }
        r
    }

    fn get_transaction(&self, transaction_id: &str) -> (r: LedgerResult<Option<Transaction>>) {
        proof {
            use_type_invariant(self);
        }
        MemoryStorage::get_transaction(self, transaction_id)
    }

    fn get_account_transactions(
        &self,
        account_id: &str,
        start_date: Option<Date>,
        end_date: Option<Date>,
    ) -> (r: LedgerResult<Vec<Transaction>>) {
        proof {
            use_type_invariant(self);
        }
        MemoryStorage::get_account_transactions(self, account_id, start_date, end_date)
    }

    fn get_transactions(&self, start_date: Option<Date>, end_date: Option<Date>) -> (r:
        LedgerResult<Vec<Transaction>>) {
        proof {
            use_type_invariant(self);
        }
        MemoryStorage::get_transactions(self, start_date, end_date)
    }

    fn update_transaction(&mut self, transaction: &Transaction) -> (r: LedgerResult<()>) {
        let r = MemoryStorage::update_transaction(self, transaction);
        proof {
            use_type_invariant(&*self);
        }
        r
    }

    fn delete_transaction(&mut self, transaction_id: &str) -> (r: LedgerResult<()>) {
        let r = MemoryStorage::delete_transaction(self, transaction_id);
        proof {
            use_type_invariant(&*self);
        }
        r
    }

    fn get_account_balance(&self, account_id: &str, as_of_date: Option<Date>) -> (r: LedgerResult<
        Decimal,
    >) {
        proof {
            use_type_invariant(self);
        }
        MemoryStorage::get_account_balance(self, account_id, as_of_date)
    }

    fn get_trial_balance(&self, as_of_date: Date) -> (r: LedgerResult<TrialBalance>) {
        proof {
            use_type_invariant(self);
        }
        MemoryStorage::get_trial_balance(self, as_of_date)
    }

    fn get_account_balances_by_type(&self, as_of_date: Date) -> (r: LedgerResult<BalancesByType>) {
        proof {
            use_type_invariant(self);
        }
        MemoryStorage::get_account_balances_by_type(self, as_of_date)
    }
}

} // verus!
