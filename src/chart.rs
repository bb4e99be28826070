//! The standard chart of accounts of a small business, and hierarchy
//! queries over the accounts of a registry.

use vstd::prelude::*;

use crate::account::{create_account_in, AccountManager};
use crate::storage::{
    account_views, accounts_of_type, find_account, has_account, upsert_account,
    LedgerStorage, StorageView,
};
use crate::traits::{AccountValidator, DefaultAccountValidator};
use crate::types::{
    new_account_view, text_option, Account, AccountType, AccountView, LedgerError, LedgerResult,
};

verus! {

/// Number of accounts in the standard chart.
pub const CHART_LEN: usize = 12;

/// Row `k` of the standard chart: lookup key, account id, name and type.
pub open spec fn chart_row(k: int) -> (Seq<char>, Seq<char>, Seq<char>, AccountType) {
    if k == 0 {
        ("cash"@, "1000"@, "Cash"@, AccountType::Asset)
    } else if k == 1 {
        ("accounts_receivable"@, "1200"@, "Accounts Receivable"@, AccountType::Asset)
    } else if k == 2 {
        ("inventory"@, "1300"@, "Inventory"@, AccountType::Asset)
    } else if k == 3 {
        ("accounts_payable"@, "2000"@, "Accounts Payable"@, AccountType::Liability)
    } else if k == 4 {
        ("loans_payable"@, "2100"@, "Loans Payable"@, AccountType::Liability)
    } else if k == 5 {
        ("owners_equity"@, "3000"@, "Owner's Equity"@, AccountType::Equity)
    } else if k == 6 {
        ("retained_earnings"@, "3200"@, "Retained Earnings"@, AccountType::Equity)
    } else if k == 7 {
        ("sales_revenue"@, "4000"@, "Sales Revenue"@, AccountType::Income)
    } else if k == 8 {
        ("service_revenue"@, "4100"@, "Service Revenue"@, AccountType::Income)
    } else if k == 9 {
        ("cost_of_goods_sold"@, "5000"@, "Cost of Goods Sold"@, AccountType::Expense)
    } else if k == 10 {
        ("rent_expense"@, "6000"@, "Rent Expense"@, AccountType::Expense)
    } else {
        ("utilities_expense"@, "6100"@, "Utilities Expense"@, AccountType::Expense)
    }
}

/// The account created for row `k`.
pub open spec fn chart_account(k: int) -> AccountView {
    new_account_view(chart_row(k).1, chart_row(k).2, chart_row(k).3, None)
}

/// The accounts of the standard chart, in creation order.
pub open spec fn chart_accounts() -> Seq<AccountView> {
    Seq::new(CHART_LEN as nat, |k: int| chart_account(k))
}

fn standard_row(k: usize) -> (r: (&'static str, &'static str, &'static str, AccountType))
    requires
        k < CHART_LEN,
    ensures
        (r.0@, r.1@, r.2@, r.3) == chart_row(k as int),
{
    if k == 0 {
        ("cash", "1000", "Cash", AccountType::Asset)
    } else if k == 1 {
        ("accounts_receivable", "1200", "Accounts Receivable", AccountType::Asset)
    } else if k == 2 {
        ("inventory", "1300", "Inventory", AccountType::Asset)
    } else if k == 3 {
        ("accounts_payable", "2000", "Accounts Payable", AccountType::Liability)
    } else if k == 4 {
        ("loans_payable", "2100", "Loans Payable", AccountType::Liability)
    } else if k == 5 {
        ("owners_equity", "3000", "Owner's Equity", AccountType::Equity)
    } else if k == 6 {
        ("retained_earnings", "3200", "Retained Earnings", AccountType::Equity)
    } else if k == 7 {
        ("sales_revenue", "4000", "Sales Revenue", AccountType::Income)
    } else if k == 8 {
        ("service_revenue", "4100", "Service Revenue", AccountType::Income)
    } else if k == 9 {
        ("cost_of_goods_sold", "5000", "Cost of Goods Sold", AccountType::Expense)
    } else if k == 10 {
        ("rent_expense", "6000", "Rent Expense", AccountType::Expense)
    } else {
        ("utilities_expense", "6100", "Utilities Expense", AccountType::Expense)
    }
}

/// The ids of the standard chart are pairwise different.
proof fn lemma_chart_ids_distinct()
    ensures
        forall|j: int, k: int|
            0 <= j < k < CHART_LEN ==> #[trigger] chart_row(j).1 != #[trigger] chart_row(k).1,
{
    reveal_strlit("1000");
    reveal_strlit("1200");
    reveal_strlit("1300");
    reveal_strlit("2000");
    reveal_strlit("2100");
    reveal_strlit("3000");
    reveal_strlit("3200");
    reveal_strlit("4000");
    reveal_strlit("4100");
    reveal_strlit("5000");
    reveal_strlit("6000");
    reveal_strlit("6100");
    assert forall|j: int, k: int| 0 <= j < k < CHART_LEN implies #[trigger] chart_row(j).1
        != #[trigger] chart_row(k).1 by {
        let a = chart_row(j).1;
        let b = chart_row(k).1;
        if a[0] == b[0] {
            if a[1] == b[1] {
                assert(false);
            } else {
                assert(a[1] != b[1]);
            }
        } else {
            assert(a[0] != b[0]);
        }
    }
}

/// What creating the standard chart does: it succeeds exactly when the
/// validator accepts every chart account and none of their ids is stored;
/// then all twelve are added and returned under their keys. Otherwise the
/// accounts before the first that failed are added.
pub open spec fn chart_outcome<A: AccountValidator>(
    v: A,
    before: StorageView,
    after: StorageView,
    reliable: bool,
    r: LedgerResult<Vec<(String, Account)>>,
) -> bool {
    let allowed = forall|k: int|
        0 <= k < CHART_LEN ==> v.accepts_account(#[trigger] chart_account(k)) && !has_account(
            before.accounts,
            chart_row(k).1,
        );
    &&& r is Ok ==> allowed
    &&& reliable ==> (r is Ok == allowed)
    &&& r is Ok ==> after.accounts == before.accounts + chart_accounts()
    &&& r is Ok ==> r->Ok_0@.len() == CHART_LEN && forall|k: int|
        0 <= k < CHART_LEN ==> (#[trigger] r->Ok_0@[k]).0@ == chart_row(k).0 && r->Ok_0@[k].1@
            == chart_account(k)
    &&& r is Err ==> exists|k: int|
        0 <= k < CHART_LEN && after.accounts == before.accounts + chart_accounts().take(k)
    &&& after.transactions == before.transactions
}

/// Creates the twelve accounts of the standard chart in order, stopping at
/// the first that cannot be created. Returns each created account under its
/// lookup key.
pub fn create_standard_chart_in<S: LedgerStorage, A: AccountValidator>(
    storage: &mut S,
    validator: &A,
) -> (r: LedgerResult<Vec<(String, Account)>>)
    ensures
        final(storage).never_fails() == old(storage).never_fails(),
        chart_outcome(
            *validator,
            old(storage).contents(),
            final(storage).contents(),
            old(storage).never_fails(),
            r,
        ),
{
    let ghost before = storage.contents();
    let ghost v = *validator;
    proof {
        lemma_chart_ids_distinct();
        assert(before.accounts + chart_accounts().take(0) =~= before.accounts);
    }
    let mut created: Vec<(String, Account)> = Vec::new();
    let mut k: usize = 0;
    while k < CHART_LEN
        invariant
            k <= CHART_LEN,
            storage.never_fails() == old(storage).never_fails(),
            v == *validator,
            before == old(storage).contents(),
            storage.contents().accounts == before.accounts + chart_accounts().take(k as int),
            storage.contents().transactions == before.transactions,
            forall|j: int|
                0 <= j < k ==> v.accepts_account(#[trigger] chart_account(j)) && !has_account(
                    before.accounts,
                    chart_row(j).1,
                ),
            created@.len() == k,
            forall|j: int|
                0 <= j < k ==> (#[trigger] created@[j]).0@ == chart_row(j).0 && created@[j].1@
                    == chart_account(j),
            forall|j: int, i: int|
                0 <= j < i < CHART_LEN ==> #[trigger] chart_row(j).1 != #[trigger] chart_row(i).1,
        decreases CHART_LEN - k,
    {
        let (key, id, name, account_type) = standard_row(k);
        let ghost accts = storage.contents().accounts;
        let ghost target = chart_account(k as int);
        proof {
            assert(chart_accounts().take(k as int + 1) =~= chart_accounts().take(k as int).push(
                target,
            ));
            if has_account(accts, target.id) && !has_account(before.accounts, target.id) {
                let p = choose|p: int| 0 <= p < accts.len() && #[trigger] accts[p].id == target.id;
                assert(p >= before.accounts.len());
                let j = p - before.accounts.len();
                assert(accts[p] == chart_account(j));
                assert(chart_row(j).1 != chart_row(k as int).1);
            }
            if has_account(before.accounts, target.id) {
                let p = choose|p: int|
                    0 <= p < before.accounts.len() && #[trigger] before.accounts[p].id == target.id;
                assert(accts[p] == before.accounts[p]);
            }
        }
        let res = create_account_in(
            storage,
            validator,
            id.to_owned(),
            name.to_owned(),
            account_type,
            None,
        );
        match res {
            Ok(account) => {
                created.push((key.to_owned(), account));
                proof {
                    assert(storage.contents().accounts =~= before.accounts
                        + chart_accounts().take(k as int + 1));
                }
            },
            Err(e) => {
                proof {
                    if old(storage).never_fails() {
                        assert(!(v.accepts_account(chart_account(k as int)) && !has_account(
                            before.accounts,
                            chart_row(k as int).1,
                        )));
                    }
                }
                return Err(e);
            },
        }
        k += 1;
    }
    proof {
        assert(chart_accounts().take(CHART_LEN as int) =~= chart_accounts());
    }
    Ok(created)
}

/// Creates the twelve accounts of the standard chart through the registry.
pub fn create_standard_chart<S: LedgerStorage, A: AccountValidator>(
    account_manager: &mut AccountManager<S, A>,
) -> (r: LedgerResult<Vec<(String, Account)>>)
    ensures
        final(account_manager).storage.never_fails() == old(account_manager).storage.never_fails(),
        final(account_manager).validator == old(account_manager).validator,
        chart_outcome(
            old(account_manager).validator,
            old(account_manager).storage.contents(),
            final(account_manager).storage.contents(),
            old(account_manager).storage.never_fails(),
            r,
        ),
{
    create_standard_chart_in(&mut account_manager.storage, &account_manager.validator)
}

/// The children of account `parent`: accounts whose parent id is `parent`,
/// in stored order.
pub open spec fn children_of(s: Seq<AccountView>, parent: Seq<char>) -> Seq<AccountView>
    decreases s.len(),
{
    if s.len() == 0 {
        s
    } else {
        let rest = children_of(s.drop_last(), parent);
        if s.last().parent_id == Some(parent) {
            rest.push(s.last())
        } else {
            rest
        }
    }
}

/// A path of accounts from a root to a leaf: the first has no parent and
/// each other one's parent is the one before it.
pub open spec fn is_root_path(s: Seq<AccountView>, path: Seq<AccountView>) -> bool {
    &&& path.len() > 0
    &&& path[0].parent_id is None
    &&& forall|i: int| 0 <= i < path.len() ==> #[trigger] find_account(s, path[i].id) == Some(path[i])
    &&& forall|i: int|
        0 < i < path.len() ==> #[trigger] path[i].parent_id == Some(path[i - 1].id)
}

/// Where following parent links from an account ends.
pub enum ChainEnd {
    /// At a root: the accounts from the root down to the start.
    Root(Seq<AccountView>),
    /// At a link naming no stored account: that id.
    Missing(Seq<char>),
    /// Not within the allowed number of steps.
    TooLong,
}

/// Follows parent links from `id`, taking at most `fuel` accounts.
pub open spec fn walk(s: Seq<AccountView>, id: Seq<char>, fuel: nat) -> ChainEnd
    decreases fuel,
{
    match find_account(s, id) {
        None => ChainEnd::Missing(id),
        Some(a) => if fuel == 0 {
            ChainEnd::TooLong
        } else {
            match a.parent_id {
                None => ChainEnd::Root(seq![a]),
                Some(p) => extend(walk(s, p, (fuel - 1) as nat), seq![a]),
            }
        },
    }
}

/// A walk's end with `suffix` appended to a found path.
pub open spec fn extend(w: ChainEnd, suffix: Seq<AccountView>) -> ChainEnd {
    match w {
        ChainEnd::Root(p) => ChainEnd::Root(p + suffix),
        other => other,
    }
}

/// A chart of accounts kept by an account registry.
pub struct StandardChartOfAccounts<S, A> {
    pub account_manager: AccountManager<S, A>,
}

impl<S: LedgerStorage> StandardChartOfAccounts<S, DefaultAccountValidator> {
    /// A chart over `storage`, through a registry with the default
    /// validator.
    pub fn new(storage: S) -> (r: StandardChartOfAccounts<S, DefaultAccountValidator>)
        ensures
            r.account_manager.storage == storage,
    {
        StandardChartOfAccounts { account_manager: AccountManager::new(storage) }
    }
}

impl<S: LedgerStorage, A: AccountValidator> StandardChartOfAccounts<S, A> {
    /// Every account, in stored order.
    pub fn get_chart(&self) -> (r: LedgerResult<Vec<Account>>)
        ensures
            r is Ok ==> account_views(r->Ok_0@) == accounts_of_type(
                self.account_manager.storage.contents().accounts,
                None,
            ),
            self.account_manager.storage.never_fails() ==> r is Ok,
    {
        self.account_manager.list_accounts()
    }

    /// Saves the account as given, replacing one of the same id.
    pub fn add_account(&mut self, account: Account) -> (r: LedgerResult<()>)
        ensures
            final(self).account_manager.storage.never_fails() == old(
                self,
            ).account_manager.storage.never_fails(),
            r is Ok ==> final(self).account_manager.storage.contents().accounts == upsert_account(
                old(self).account_manager.storage.contents().accounts,
                account@,
            ),
            final(self).account_manager.storage.contents().transactions == old(
                self,
            ).account_manager.storage.contents().transactions,
            old(self).account_manager.storage.never_fails() ==> r is Ok,
    {
        self.account_manager.storage.save_account(&account)
    }

    /// The accounts whose parent is `parent_id`.
    pub fn get_child_accounts(&self, parent_id: &str) -> (r: LedgerResult<Vec<Account>>)
        ensures
            r is Ok ==> account_views(r->Ok_0@) == children_of(
                self.account_manager.storage.contents().accounts,
                parent_id@,
            ),
            self.account_manager.storage.never_fails() ==> r is Ok,
    {
        let all = self.account_manager.list_accounts()?;
        let ghost s = account_views(all@);
        proof {
            crate::recorder::lemma_all_accounts(self.account_manager.storage.contents().accounts);
        }
        let key = parent_id.to_owned();
        let mut out: Vec<Account> = Vec::new();
        let mut i: usize = 0;
        while i < all.len()
            invariant
                i <= all.len(),
                s == account_views(all@),
                s == self.account_manager.storage.contents().accounts,
                key@ == parent_id@,
                account_views(out@) == children_of(s.take(i as int), parent_id@),
            decreases all.len() - i,
        {
            let a = &all[i];
            proof {
                assert(s.take(i + 1).drop_last() =~= s.take(i as int));
                assert(s.take(i + 1).last() == a@);
            }
            let is_child = match &a.parent_id {
                Some(p) => *p == key,
                None => false,
            };
            if is_child {
                let ghost before = out@;
                out.push(a.clone());
                proof {
                    assert(account_views(out@) =~= account_views(before).push(a@));
                }
            }
            i += 1;
        }
        proof {
            assert(s.take(i as int) =~= s);
        }
        Ok(out)
    }

    /// The accounts from the root of the hierarchy down to `account_id`.
    /// Fails with `AccountNotFound` where a link names no stored account,
    /// and with a validation error where the parent links form a cycle.
    pub fn get_account_path(&self, account_id: &str) -> (r: LedgerResult<Vec<Account>>)
        ensures
            r is Ok ==> is_root_path(
                self.account_manager.storage.contents().accounts,
                account_views(r->Ok_0@),
            ) && account_views(r->Ok_0@).last().id == account_id@,
            !has_account(self.account_manager.storage.contents().accounts, account_id@) ==> r is Err,
            self.account_manager.storage.never_fails() ==> match walk(
                self.account_manager.storage.contents().accounts,
                account_id@,
                self.account_manager.storage.contents().accounts.len(),
            ) {
                ChainEnd::Root(p) => r is Ok && account_views(r->Ok_0@) == p,
                ChainEnd::Missing(id) => r is Err && r->Err_0 is AccountNotFound
                    && r->Err_0->AccountNotFound_0@ == id,
                ChainEnd::TooLong => r is Err && r->Err_0 is Validation,
            },
    {
        let ghost s = self.account_manager.storage.contents().accounts;
        let ghost reliable = self.account_manager.storage.never_fails();
        let all = self.account_manager.list_accounts()?;
        let limit = all.len();
        proof {
            crate::recorder::lemma_all_accounts(s);
        }
        let mut path: Vec<Account> = Vec::new();
        let first = match self.account_manager.get_account(account_id)? {
            Some(a) => a,
            None => {
                return Err(LedgerError::AccountNotFound(account_id.to_owned()));
            },
        };
        let mut current = first;
        let mut steps: usize = 0;
        loop
            invariant
                s == self.account_manager.storage.contents().accounts,
                reliable == self.account_manager.storage.never_fails(),
                reliable ==> limit == s.len(),
                steps <= limit,
                reliable ==> walk(s, account_id@, s.len()) == extend(
                    walk(s, current@.id, (limit - steps) as nat),
                    account_views(path@),
                ),
                find_account(s, current@.id) == Some(current@),
                has_account(s, account_id@),
                path@.len() > 0 ==> account_views(path@)[0].parent_id == Some(current@.id),
                path@.len() > 0 ==> account_views(path@).last().id == account_id@,
                path@.len() == 0 ==> current@.id == account_id@,
                forall|i: int|
                    0 <= i < path@.len() ==> #[trigger] find_account(s, account_views(path@)[i].id)
                        == Some(account_views(path@)[i]),
                forall|i: int|
                    0 < i < path@.len() ==> #[trigger] account_views(path@)[i].parent_id == Some(
                        account_views(path@)[i - 1].id,
                    ),
            decreases limit - steps,
        {
            if steps >= limit {
                return Err(LedgerError::Validation("Account hierarchy has a cycle".to_string()));
            }
            let ghost fuel = (limit - steps) as nat;
            steps += 1;
            let parent = clone_parent(&current.parent_id);
            let ghost before = path@;
            let ghost cur = current@;
            path.insert(0, current);
            proof {
                assert(account_views(path@) =~= seq![cur] + account_views(before));
                if cur.parent_id is None {
                    assert(seq![cur] + account_views(before) =~= account_views(path@));
                } else {
                    let w = walk(s, cur.parent_id.unwrap(), (fuel - 1) as nat);
                    assert(extend(extend(w, seq![cur]), account_views(before)) == extend(
                        w,
                        account_views(path@),
                    )) by {
                        if let ChainEnd::Root(q) = w {
                            assert(q + seq![cur] + account_views(before) =~= q + account_views(
                                path@,
                            ));
                        }
                    }
                }
            }
            match parent {
                None => {
                    return Ok(path);
                },
                Some(pid) => match self.account_manager.get_account(pid.as_str())? {
                    Some(a) => {
                        proof {
                            let k = crate::storage::account_pos(s, pid@);
                            assert(s[k].id == pid@);
                        }
                        current = a;
                    },
                    None => {
                        proof {
                            assert(pid@ == cur.parent_id.unwrap());
                        }
                        return Err(LedgerError::AccountNotFound(pid));
                    },
                },
            }
        }
    }
}

/// A chart of accounts: the accounts, their children and their paths from
/// the root.
pub trait ChartOfAccounts {
    /// Every account.
    fn get_chart(&self) -> LedgerResult<Vec<Account>>;

    /// Adds an account as given.
    fn add_account(&mut self, account: Account) -> LedgerResult<()>;

    /// The accounts whose parent is `parent_id`.
    fn get_child_accounts(&self, parent_id: &str) -> LedgerResult<Vec<Account>>;

    /// The accounts from the root down to `account_id`.
    fn get_account_path(&self, account_id: &str) -> LedgerResult<Vec<Account>>;
}

impl<S: LedgerStorage, A: AccountValidator> ChartOfAccounts for StandardChartOfAccounts<S, A> {
    fn get_chart(&self) -> LedgerResult<Vec<Account>> {
        StandardChartOfAccounts::get_chart(self)
    }

    fn add_account(&mut self, account: Account) -> LedgerResult<()> {
        StandardChartOfAccounts::add_account(self, account)
    }

    fn get_child_accounts(&self, parent_id: &str) -> LedgerResult<Vec<Account>> {
        StandardChartOfAccounts::get_child_accounts(self, parent_id)
    }

    fn get_account_path(&self, account_id: &str) -> LedgerResult<Vec<Account>> {
        StandardChartOfAccounts::get_account_path(self, account_id)
    }
}

fn clone_parent(p: &Option<String>) -> (r: Option<String>)
    ensures
        text_option(r) == text_option(*p),
{
    match p {
        Some(s) => Some(s.clone()),
        None => None,
    }
}

} // verus!
