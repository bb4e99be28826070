//! Financial reports derived from the trial balance: balance sheet, income
//! statement, cash flow, and the integrity check that compares them.

use vstd::prelude::*;

use crate::calendar::Date;
use crate::decimal::{decimal_text, fits, Decimal};
use crate::replay::{decimal_option_value, replay_balance_window, replay_window};
use crate::storage::{
    account_views, accounts_of_type, balance_line, column_value, line_views, lines_of_type,
    transaction_views, transactions_matching, trial, LedgerStorage, StorageView,
};
use crate::sums::{lemma_sum_take_next, sum, sum_fits};
use crate::types::{
    new_account_view, side_amounts, Account, AccountBalance, AccountBalanceView,
    AccountType, AccountView, Entry, EntryType, LedgerError, LedgerResult, TransactionView,
};

verus! {

/// A line's signed amount: debit minus credit, or credit minus debit on the
/// credit side.
pub open spec fn line_net(l: AccountBalanceView, credit_side: bool) -> int {
    let n = column_value(l.debit_balance) - column_value(l.credit_balance);
    if credit_side {
        -n
    } else {
        n
    }
}

pub open spec fn line_nets(lines: Seq<AccountBalanceView>, credit_side: bool) -> Seq<int> {
    lines.map_values(|l: AccountBalanceView| line_net(l, credit_side))
}

/// The sum of `xs`, or `None` where a running total cannot be held.
pub open spec fn checked_total(xs: Seq<int>) -> Option<int> {
    if sum_fits(xs) {
        Some(sum(xs))
    } else {
        None
    }
}

/// The signed total of a group of lines, seen from one side: assets and
/// expenses from the debit side, liabilities, equity and income from the
/// credit side. `None` where a line's amount or a running total cannot be
/// held.
pub open spec fn group_total(lines: Seq<AccountBalanceView>, credit_side: bool) -> Option<int> {
    if forall|i: int| 0 <= i < lines.len() ==> fits(#[trigger] line_nets(lines, credit_side)[i]) {
        checked_total(line_nets(lines, credit_side))
    } else {
        None
    }
}

/// The signed total of `lines` seen from the credit side or the debit side.
pub fn lines_total(lines: &Vec<AccountBalance>, credit_side: bool) -> (r: Option<Decimal>)
    ensures
        decimal_option_value(r) == group_total(line_views(lines@), credit_side),
{
    let ghost xs = line_nets(line_views(lines@), credit_side);
    let mut total = Decimal::zero();
    let mut i: usize = 0;
    proof {
        assert(xs.take(0) =~= Seq::<int>::empty());
    }
    while i < lines.len()
        invariant
            i <= lines.len(),
            xs == line_nets(line_views(lines@), credit_side),
            total@ == sum(xs.take(i as int)),
            forall|k: int| 0 <= k <= i ==> fits(0 + #[trigger] sum(xs.take(k))),
            forall|k: int| 0 <= k < i ==> fits(#[trigger] xs[k]),
        decreases lines.len() - i,
    {
        proof {
            lemma_sum_take_next(xs, i as int);
        }
        let line = &lines[i];
        let debit = match line.debit_balance {
            Some(d) => d,
            None => Decimal::zero(),
        };
        let credit = match line.credit_balance {
            Some(c) => c,
            None => Decimal::zero(),
        };
        let net = if credit_side {
            credit.checked_sub(&debit)
        } else {
            debit.checked_sub(&credit)
        };
        let amount = match net {
            Some(n) => n,
            None => {
                proof {
                    assert(!fits(xs[i as int]));
                }
                return None;
            },
        };
        match total.checked_add(&amount) {
            Some(t) => {
                total = t;
            },
            None => {
                return None;
            },
        }
        i += 1;
    }
    proof {
        assert(xs.take(xs.len() as int) =~= xs);
    }
    Some(total)
}

pub fn clone_lines(lines: &Vec<AccountBalance>) -> (r: Vec<AccountBalance>)
    ensures
        line_views(r@) == line_views(lines@),
{
    let mut r: Vec<AccountBalance> = Vec::new();
    let mut i: usize = 0;
    while i < lines.len()
        invariant
            i <= lines.len(),
            line_views(r@) == line_views(lines@).take(i as int),
        decreases lines.len() - i,
    {
        let ghost before = r@;
        let c = lines[i].clone();
        r.push(c);
        proof {
            assert(line_views(r@) =~= line_views(before).push(lines@[i as int]@));
            assert(line_views(lines@).take(i + 1) =~= line_views(lines@).take(i as int).push(
                lines@[i as int]@,
            ));
        }
        i += 1;
    }
    proof {
        assert(line_views(lines@).take(i as int) =~= line_views(lines@));
    }
    r
}

/// The synthetic equity line carrying the period's net income: on the
/// credit side when positive, on the debit side when negative.
pub open spec fn net_income_line(net: int) -> AccountBalanceView {
    AccountBalanceView {
        account: new_account_view("net_income"@, "Net Income"@, AccountType::Equity, None),
        debit_balance: if net < 0 {
            Some(-net)
        } else {
            None
        },
        credit_balance: if net > 0 {
            Some(net)
        } else {
            None
        },
    }
}

/// Assets, liabilities and equity as of a date.
#[derive(Debug)]
pub struct BalanceSheet {
    pub as_of_date: Date,
    pub assets: Vec<AccountBalance>,
    pub liabilities: Vec<AccountBalance>,
    /// Equity lines, with a net income line where income and expenses do
    /// not cancel.
    pub equity: Vec<AccountBalance>,
    pub total_assets: Decimal,
    pub total_liabilities: Decimal,
    pub total_equity: Decimal,
    /// Whether assets equal liabilities plus equity.
    pub is_balanced: bool,
}

pub struct BalanceSheetView {
    pub as_of_date: Date,
    pub assets: Seq<AccountBalanceView>,
    pub liabilities: Seq<AccountBalanceView>,
    pub equity: Seq<AccountBalanceView>,
    pub total_assets: int,
    pub total_liabilities: int,
    pub total_equity: int,
    pub is_balanced: bool,
}

impl View for BalanceSheet {
    type V = BalanceSheetView;

    open spec fn view(&self) -> BalanceSheetView {
        BalanceSheetView {
            as_of_date: self.as_of_date,
            assets: line_views(self.assets@),
            liabilities: line_views(self.liabilities@),
            equity: line_views(self.equity@),
            total_assets: self.total_assets@,
            total_liabilities: self.total_liabilities@,
            total_equity: self.total_equity@,
            is_balanced: self.is_balanced,
        }
    }
}

/// The balance sheet built from trial-balance lines, or `None` where a total
/// cannot be held.
pub open spec fn balance_sheet_of(lines: Seq<AccountBalanceView>, as_of: Date) -> Option<
    BalanceSheetView,
> {
    let income = group_total(lines_of_type(lines, AccountType::Income), true);
    let expenses = group_total(lines_of_type(lines, AccountType::Expense), false);
    if income is None || expenses is None {
        None
    } else {
        let net = income.unwrap() - expenses.unwrap();
        let equity = if net == 0 {
            lines_of_type(lines, AccountType::Equity)
        } else {
            lines_of_type(lines, AccountType::Equity).push(net_income_line(net))
        };
        let ta = group_total(lines_of_type(lines, AccountType::Asset), false);
        let tl = group_total(lines_of_type(lines, AccountType::Liability), true);
        let te = group_total(equity, true);
        if !fits(net) || !fits(-net) || ta is None || tl is None || te is None {
            None
        } else {
            Some(
                BalanceSheetView {
                    as_of_date: as_of,
                    assets: lines_of_type(lines, AccountType::Asset),
                    liabilities: lines_of_type(lines, AccountType::Liability),
                    equity,
                    total_assets: ta.unwrap(),
                    total_liabilities: tl.unwrap(),
                    total_equity: te.unwrap(),
                    is_balanced: ta.unwrap() == tl.unwrap() + te.unwrap(),
                },
            )
        }
    }
}

/// The trial-balance lines of the store as of `as_of`, if they can be held.
pub open spec fn trial_lines(s: StorageView, as_of: Date) -> Option<Seq<AccountBalanceView>> {
    match trial(s.accounts, s.transactions, as_of) {
        Some(t) => Some(t.0),
        None => None,
    }
}

/// Groups the trial-balance lines by account type into assets, liabilities
/// and equity, folding income minus expenses into equity as a net income
/// line.
pub fn generate_balance_sheet<S: LedgerStorage>(storage: &S, as_of_date: Date) -> (r: LedgerResult<
    BalanceSheet,
>)
    ensures
        r is Ok ==> trial_lines(storage.contents(), as_of_date) is Some && balance_sheet_of(
            trial_lines(storage.contents(), as_of_date).unwrap(),
            as_of_date,
        ) is Some,
        r is Ok ==> r->Ok_0@ == balance_sheet_of(
            trial_lines(storage.contents(), as_of_date).unwrap(),
            as_of_date,
        ).unwrap(),
        storage.never_fails() ==> (r is Ok == (trial_lines(storage.contents(), as_of_date) is Some
            && balance_sheet_of(trial_lines(storage.contents(), as_of_date).unwrap(), as_of_date) is Some)),
{
    let groups = storage.get_account_balances_by_type(as_of_date)?;
    let ghost lines = trial_lines(storage.contents(), as_of_date).unwrap();
    proof {
        assert(groups.group_view(AccountType::Asset) == lines_of_type(lines, AccountType::Asset));
        assert(groups.group_view(AccountType::Liability) == lines_of_type(
            lines,
            AccountType::Liability,
        ));
        assert(groups.group_view(AccountType::Equity) == lines_of_type(lines, AccountType::Equity));
        assert(groups.group_view(AccountType::Income) == lines_of_type(lines, AccountType::Income));
        assert(groups.group_view(AccountType::Expense) == lines_of_type(
            lines,
            AccountType::Expense,
        ));
    }
    let out_of_range = "balance sheet total out of range";
    let total_income = match lines_total(groups.get(AccountType::Income), true) {
        Some(t) => t,
        None => {
            return Err(LedgerError::Validation(out_of_range.to_string()));
        },
    };
    let total_expenses = match lines_total(groups.get(AccountType::Expense), false) {
        Some(t) => t,
        None => {
            return Err(LedgerError::Validation(out_of_range.to_string()));
        },
    };
    let net_income = match total_income.checked_sub(&total_expenses) {
        Some(n) => n,
        None => {
            return Err(LedgerError::Validation(out_of_range.to_string()));
        },
    };
    let net_magnitude = match net_income.checked_neg() {
        Some(m) => m,
        None => {
            return Err(LedgerError::Validation(out_of_range.to_string()));
        },
    };
    let assets = clone_lines(groups.get(AccountType::Asset));
    let liabilities = clone_lines(groups.get(AccountType::Liability));
    let mut equity = clone_lines(groups.get(AccountType::Equity));
    if !net_income.is_zero() {
        let account = Account::new(
            "net_income".to_owned(),
            "Net Income".to_owned(),
            AccountType::Equity,
            None,
        );
        let line = AccountBalance {
            account,
            debit_balance: if net_income.is_negative() {
                Some(net_magnitude)
            } else {
                None
            },
            credit_balance: if net_income.is_positive() {
                Some(net_income)
            } else {
                None
            },
        };
        let ghost before = equity@;
        equity.push(line);
        proof {
            assert(line_views(equity@) =~= line_views(before).push(net_income_line(net_income@)));
        }
    }
    let total_assets = match lines_total(&assets, false) {
        Some(t) => t,
        None => {
            return Err(LedgerError::Validation(out_of_range.to_string()));
        },
    };
    let total_liabilities = match lines_total(&liabilities, true) {
        Some(t) => t,
        None => {
            return Err(LedgerError::Validation(out_of_range.to_string()));
        },
    };
    let total_equity = match lines_total(&equity, true) {
        Some(t) => t,
        None => {
            return Err(LedgerError::Validation(out_of_range.to_string()));
        },
    };
    let is_balanced = match total_liabilities.checked_add(&total_equity) {
        Some(s) => s.units == total_assets.units,
        None => false,
    };
    Ok(
        BalanceSheet {
            as_of_date,
            assets,
            liabilities,
            equity,
            total_assets,
            total_liabilities,
            total_equity,
            is_balanced,
        },
    )
}

/// The lines of `accts` for the period from `start` to `end`: each
/// account's net change over the transactions dated within the period, put
/// on its debit or credit side.
pub open spec fn period_lines(
    accts: Seq<AccountView>,
    txns: Seq<TransactionView>,
    start: Date,
    end: Date,
) -> Option<Seq<AccountBalanceView>>
    decreases accts.len(),
{
    if accts.len() == 0 {
        Some(Seq::empty())
    } else {
        match period_lines(accts.drop_last(), txns, start, end) {
            None => None,
            Some(prev) => {
                let a = accts.last();
                match replay_window(txns, a.id, a.account_type, Some(start), end) {
                    None => None,
                    Some(b) => if fits(-b) {
                        Some(prev.push(balance_line(a, b)))
                    } else {
                        None
                    },
                }
            },
        }
    }
}

fn period_lines_of(
    accounts: &Vec<Account>,
    transactions: &Vec<crate::types::Transaction>,
    start: Date,
    end: Date,
) -> (r: Option<Vec<AccountBalance>>)
    ensures
        match r {
            Some(v) => period_lines(account_views(accounts@), transaction_views(transactions@), start, end)
                == Some(line_views(v@)),
            None => period_lines(account_views(accounts@), transaction_views(transactions@), start, end) is None,
        },
{
    let ghost accts = account_views(accounts@);
    let ghost txns = transaction_views(transactions@);
    let mut lines: Vec<AccountBalance> = Vec::new();
    let mut i: usize = 0;
    while i < accounts.len()
        invariant
            i <= accounts.len(),
            accts == account_views(accounts@),
            txns == transaction_views(transactions@),
            period_lines(accts.take(i as int), txns, start, end) == Some(line_views(lines@)),
        decreases accounts.len() - i,
    {
        let a = &accounts[i];
        proof {
            assert(accts.take(i + 1).drop_last() =~= accts.take(i as int));
            assert(accts.take(i + 1).last() == a@);
        }
        let b = match replay_balance_window(transactions, &a.id, a.account_type, Some(start), end) {
            Some(b) => b,
            None => {
                proof {
                    lemma_period_prefix_none(accts, txns, start, end, i + 1);
                }
                return None;
            },
        };
        let magnitude = match b.checked_neg() {
            Some(m) => if b.is_negative() {
                m
            } else {
                b
            },
            None => {
                proof {
                    lemma_period_prefix_none(accts, txns, start, end, i + 1);
                }
                return None;
            },
        };
        let on_debit_side = (a.account_type.normal_balance() == crate::types::EntryType::Debit)
            == !b.is_negative();
        let line = if on_debit_side {
            AccountBalance { account: a.clone(), debit_balance: Some(magnitude), credit_balance: None }
        } else {
            AccountBalance { account: a.clone(), debit_balance: None, credit_balance: Some(magnitude) }
        };
        let ghost before = lines@;
        lines.push(line);
        proof {
            assert(line_views(lines@) =~= line_views(before).push(balance_line(a@, b@)));
        }
        i += 1;
    }
    proof {
        assert(accts.take(i as int) =~= accts);
    }
    Some(lines)
}

proof fn lemma_period_prefix_none(
    accts: Seq<AccountView>,
    txns: Seq<TransactionView>,
    start: Date,
    end: Date,
    i: int,
)
    requires
        0 <= i <= accts.len(),
        period_lines(accts.take(i), txns, start, end) is None,
    ensures
        period_lines(accts, txns, start, end) is None,
    decreases accts.len() - i,
{
    if i < accts.len() {
        assert(accts.take(i + 1).drop_last() =~= accts.take(i));
        lemma_period_prefix_none(accts, txns, start, end, i + 1);
    } else {
        assert(accts.take(i) =~= accts);
    }
}

pub proof fn lemma_all_transactions(s: Seq<TransactionView>)
    ensures
        transactions_matching(s, None, None, None) == s,
    decreases s.len(),
{
    if s.len() > 0 {
        lemma_all_transactions(s.drop_last());
        assert(s.drop_last().push(s.last()) =~= s);
    }
}

/// Revenue and expenses over a period.
#[derive(Debug)]
pub struct IncomeStatement {
    pub start_date: Date,
    pub end_date: Date,
    /// One line per income account: its net change over the period.
    pub revenue: Vec<AccountBalance>,
    /// One line per expense account: its net change over the period.
    pub expenses: Vec<AccountBalance>,
    pub total_revenue: Decimal,
    pub total_expenses: Decimal,
    pub net_income: Decimal,
}

pub struct IncomeStatementView {
    pub start_date: Date,
    pub end_date: Date,
    pub revenue: Seq<AccountBalanceView>,
    pub expenses: Seq<AccountBalanceView>,
    pub total_revenue: int,
    pub total_expenses: int,
    pub net_income: int,
}

impl View for IncomeStatement {
    type V = IncomeStatementView;

    open spec fn view(&self) -> IncomeStatementView {
        IncomeStatementView {
            start_date: self.start_date,
            end_date: self.end_date,
            revenue: line_views(self.revenue@),
            expenses: line_views(self.expenses@),
            total_revenue: self.total_revenue@,
            total_expenses: self.total_expenses@,
            net_income: self.net_income@,
        }
    }
}

/// The income statement of the transactions dated from `start` to `end`,
/// or `None` where a balance or total cannot be held.
pub open spec fn income_statement_of(
    accts: Seq<AccountView>,
    txns: Seq<TransactionView>,
    start: Date,
    end: Date,
) -> Option<IncomeStatementView> {
    let revenue = period_lines(accounts_of_type(accts, Some(AccountType::Income)), txns, start, end);
    let expenses = period_lines(accounts_of_type(accts, Some(AccountType::Expense)), txns, start, end);
    if revenue is None || expenses is None {
        None
    } else {
        let tr = group_total(revenue.unwrap(), true);
        let te = group_total(expenses.unwrap(), false);
        if tr is None || te is None || !fits(tr.unwrap() - te.unwrap()) {
            None
        } else {
            Some(
                IncomeStatementView {
                    start_date: start,
                    end_date: end,
                    revenue: revenue.unwrap(),
                    expenses: expenses.unwrap(),
                    total_revenue: tr.unwrap(),
                    total_expenses: te.unwrap(),
                    net_income: tr.unwrap() - te.unwrap(),
                },
            )
        }
    }
}

/// Income and expense accounts with their net change over the transactions
/// dated from `start_date` to `end_date`, both inclusive.
pub fn generate_income_statement<S: LedgerStorage>(
    storage: &S,
    start_date: Date,
    end_date: Date,
) -> (r: LedgerResult<IncomeStatement>)
    ensures
        ({
            let s = income_statement_of(
                storage.contents().accounts,
                storage.contents().transactions,
                start_date,
                end_date,
            );
            &&& r is Ok ==> s is Some && r->Ok_0@ == s.unwrap()
            &&& storage.never_fails() ==> (r is Ok == s is Some)
        }),
{
    let out_of_range = "income statement total out of range";
    let transactions = storage.get_transactions(None, None)?;
    proof {
        lemma_all_transactions(storage.contents().transactions);
    }
    let income_accounts = storage.list_accounts(Some(AccountType::Income))?;
    let expense_accounts = storage.list_accounts(Some(AccountType::Expense))?;
    let revenue = match period_lines_of(&income_accounts, &transactions, start_date, end_date) {
        Some(v) => v,
        None => {
            return Err(LedgerError::Validation(out_of_range.to_string()));
        },
    };
    let expenses = match period_lines_of(&expense_accounts, &transactions, start_date, end_date) {
        Some(v) => v,
        None => {
            return Err(LedgerError::Validation(out_of_range.to_string()));
        },
    };
    let total_revenue = match lines_total(&revenue, true) {
        Some(t) => t,
        None => {
            return Err(LedgerError::Validation(out_of_range.to_string()));
        },
    };
    let total_expenses = match lines_total(&expenses, false) {
        Some(t) => t,
        None => {
            return Err(LedgerError::Validation(out_of_range.to_string()));
        },
    };
    let net_income = match total_revenue.checked_sub(&total_expenses) {
        Some(n) => n,
        None => {
            return Err(LedgerError::Validation(out_of_range.to_string()));
        },
    };
    Ok(
        IncomeStatement {
            start_date,
            end_date,
            revenue,
            expenses,
            total_revenue,
            total_expenses,
            net_income,
        },
    )
}

/// Result of cross-checking the trial balance against the balance sheet.
#[derive(Debug)]
pub struct LedgerIntegrityReport {
    pub as_of_date: Date,
    /// Whether both the trial balance and the balance sheet balance.
    pub is_valid: bool,
    /// One message per check that failed.
    pub issues: Vec<String>,
    pub trial_balance_total_debits: Decimal,
    pub trial_balance_total_credits: Decimal,
    pub balance_sheet_total_assets: Decimal,
    pub balance_sheet_total_liabilities_equity: Decimal,
}

pub open spec fn trial_issue(debits: int, credits: int) -> Seq<char> {
    "Trial balance is not balanced: debits = "@ + decimal_text(debits) + ", credits = "@
        + decimal_text(credits)
}

pub open spec fn sheet_issue(assets: int, liabilities_equity: int) -> Seq<char> {
    "Balance sheet is not balanced: assets = "@ + decimal_text(assets)
        + ", liabilities + equity = "@ + decimal_text(liabilities_equity)
}

pub open spec fn texts(v: Seq<String>) -> Seq<Seq<char>> {
    v.map_values(|s: String| s@)
}

/// The issues found: the trial-balance message when its columns differ,
/// then the balance-sheet message when it does not balance.
pub open spec fn integrity_issues(d: int, c: int, bs: BalanceSheetView) -> Seq<Seq<char>> {
    let le = bs.total_liabilities + bs.total_equity;
    (if d != c {
        seq![trial_issue(d, c)]
    } else {
        Seq::empty()
    }) + (if !bs.is_balanced {
        seq![sheet_issue(bs.total_assets, le)]
    } else {
        Seq::empty()
    })
}

/// What the integrity check reports on `s` as of `as_of`: it succeeds where
/// the trial balance, the balance sheet and liabilities plus equity can be
/// computed (always so on a reliable store), and then gives both verdicts,
/// one issue per failed check, and the four totals.
pub open spec fn integrity_outcome(
    s: StorageView,
    as_of: Date,
    reliable: bool,
    r: LedgerResult<LedgerIntegrityReport>,
) -> bool {
    let tr = trial(s.accounts, s.transactions, as_of);
    let bs = balance_sheet_of(tr.unwrap().0, as_of);
    let computable = tr is Some && bs is Some && fits(
        bs.unwrap().total_liabilities + bs.unwrap().total_equity,
    );
    &&& r is Ok ==> computable
    &&& reliable ==> (r is Ok == computable)
    &&& r is Ok ==> {
        let rep = r->Ok_0;
        let t = tr.unwrap();
        let b = bs.unwrap();
        &&& rep.as_of_date == as_of
        &&& rep.is_valid == (t.1 == t.2 && b.is_balanced)
        &&& texts(rep.issues@) == integrity_issues(t.1, t.2, b)
        &&& rep.trial_balance_total_debits@ == t.1
        &&& rep.trial_balance_total_credits@ == t.2
        &&& rep.balance_sheet_total_assets@ == b.total_assets
        &&& rep.balance_sheet_total_liabilities_equity@ == b.total_liabilities + b.total_equity
    }
}

fn message(head: &str, first: &Decimal, middle: &str, second: &Decimal) -> (r: String)
    ensures
        r@ == head@ + decimal_text(first@) + middle@ + decimal_text(second@),
{
    let mut m = head.to_owned();
    let a = first.to_text();
    let b = second.to_text();
    m.append(a.as_str());
    m.append(middle);
    m.append(b.as_str());
    m
}

/// Runs the trial balance and the balance sheet as of `as_of_date` and
/// reports whether each balances. Changes nothing.
pub fn validate_integrity<S: LedgerStorage>(storage: &S, as_of_date: Date) -> (r: LedgerResult<
    LedgerIntegrityReport,
>)
    ensures
        integrity_outcome(storage.contents(), as_of_date, storage.never_fails(), r),
{
    let trial_balance = storage.get_trial_balance(as_of_date)?;
    let balance_sheet = generate_balance_sheet(storage, as_of_date)?;
    let liabilities_equity = match balance_sheet.total_liabilities.checked_add(
        &balance_sheet.total_equity,
    ) {
        Some(s) => s,
        None => {
            return Err(
                LedgerError::Validation("liabilities plus equity out of range".to_string()),
            );
        },
    };
    let ghost t = trial(storage.contents().accounts, storage.contents().transactions, as_of_date).unwrap();
    let ghost b = balance_sheet_of(t.0, as_of_date).unwrap();
    let mut issues: Vec<String> = Vec::new();
    if !trial_balance.is_balanced {
        issues.push(
            message(
                "Trial balance is not balanced: debits = ",
                &trial_balance.total_debits,
                ", credits = ",
                &trial_balance.total_credits,
            ),
        );
    }
    let ghost after_trial = issues@;
    if !balance_sheet.is_balanced {
        issues.push(
            message(
                "Balance sheet is not balanced: assets = ",
                &balance_sheet.total_assets,
                ", liabilities + equity = ",
                &liabilities_equity,
            ),
        );
    }
    proof {
        assert(texts(issues@) =~= integrity_issues(t.1, t.2, b));
    }
    let is_valid = issues.len() == 0;
    Ok(
        LedgerIntegrityReport {
            as_of_date,
            is_valid,
            issues,
            trial_balance_total_debits: trial_balance.total_debits,
            trial_balance_total_credits: trial_balance.total_credits,
            balance_sheet_total_assets: balance_sheet.total_assets,
            balance_sheet_total_liabilities_equity: liabilities_equity,
        },
    )
}

/// Whether `pat` occurs in `s` as a run of consecutive characters.
pub open spec fn contains_text(s: Seq<char>, pat: Seq<char>) -> bool {
    exists|i: int| 0 <= i && i + pat.len() <= s.len() && #[trigger] s.subrange(i, i + pat.len()) == pat
}

/// Relies on `str::contains` with a `&str` pattern: whether the pattern
/// matches a substring.
#[verifier::external_body]
fn text_contains(s: &str, pat: &str) -> (r: bool)
    ensures
        r == contains_text(s@, pat@),
{
    s.contains(pat)
}

/// The lowercase mapping of a text.
pub uninterp spec fn lower_of(s: Seq<char>) -> Seq<char>;

/// Relies on `str::to_lowercase`, whose result depends on the characters
/// alone.
#[verifier::external_body]
fn lowercase(s: &str) -> (r: String)
    ensures
        r@ == lower_of(s@),
{
    s.to_lowercase()
}

/// Some entry's account id contains `a` or `b`.
pub open spec fn mentions(es: Seq<Entry>, a: Seq<char>, b: Seq<char>) -> bool {
    exists|i: int|
        0 <= i < es.len() && (contains_text(#[trigger] es[i].account_id@, a) || contains_text(
            es[i].account_id@,
            b,
        ))
}

fn entries_mention(es: &Vec<Entry>, a: &str, b: &str) -> (r: bool)
    ensures
        r == mentions(es@, a@, b@),
{
    let mut i: usize = 0;
    while i < es.len()
        invariant
            i <= es.len(),
            forall|j: int|
                0 <= j < i ==> !(contains_text(#[trigger] es@[j].account_id@, a@) || contains_text(
                    es@[j].account_id@,
                    b@,
                )),
        decreases es.len() - i,
    {
        let id = es[i].account_id.as_str();
        if text_contains(id, a) || text_contains(id, b) {
            return true;
        }
        i += 1;
    }
    false
}

/// The three activities of a cash-flow statement.
#[derive(Clone, Copy, Debug, PartialEq, Eq, Structural)]
pub enum CashFlowActivity {
    Operating,
    Investing,
    Financing,
}

/// The activity of a transaction with entries `es` and lowercased
/// description `lowered`: financing where an account id mentions equity,
/// capital, payables or loans; else investing where an account id mentions
/// assets or cash and the description mentions equipment; else operating.
pub open spec fn activity_of(es: Seq<Entry>, lowered: Seq<char>) -> CashFlowActivity {
    if mentions(es, "equity"@, "capital"@) || mentions(es, "payable"@, "loan"@) {
        CashFlowActivity::Financing
    } else if mentions(es, "asset"@, "cash"@) && contains_text(lowered, "equipment"@) {
        CashFlowActivity::Investing
    } else {
        CashFlowActivity::Operating
    }
}

/// Classifies a transaction by the words in its account ids and in its
/// description, given already lowercased.
pub fn classify_cash_flow(entries: &Vec<Entry>, lowered_description: &str) -> (r: CashFlowActivity)
    ensures
        r == activity_of(entries@, lowered_description@),
{
    if entries_mention(entries, "equity", "capital") || entries_mention(entries, "payable", "loan") {
        CashFlowActivity::Financing
    } else if entries_mention(entries, "asset", "cash") && text_contains(
        lowered_description,
        "equipment",
    ) {
        CashFlowActivity::Investing
    } else {
        CashFlowActivity::Operating
    }
}

/// A transaction's line in a cash-flow statement.
#[derive(Debug)]
pub struct CashFlowItem {
    pub description: String,
    pub amount: Decimal,
}

pub struct CashFlowItemView {
    pub description: Seq<char>,
    pub amount: int,
}

impl View for CashFlowItem {
    type V = CashFlowItemView;

    open spec fn view(&self) -> CashFlowItemView {
        CashFlowItemView { description: self.description@, amount: self.amount@ }
    }
}

pub open spec fn item_views(s: Seq<CashFlowItem>) -> Seq<CashFlowItemView> {
    s.map_values(|i: CashFlowItem| i@)
}

pub open spec fn item_amounts(s: Seq<CashFlowItemView>) -> Seq<int> {
    s.map_values(|i: CashFlowItemView| i.amount)
}

/// The three activity groups of `txns` in order (operating, investing,
/// financing), each item carrying its transaction's total debits; `None`
/// where such a total cannot be held.
pub open spec fn cash_flow_groups(txns: Seq<TransactionView>) -> Option<
    (Seq<CashFlowItemView>, Seq<CashFlowItemView>, Seq<CashFlowItemView>),
>
    decreases txns.len(),
{
    if txns.len() == 0 {
        Some((Seq::empty(), Seq::empty(), Seq::empty()))
    } else {
        match cash_flow_groups(txns.drop_last()) {
            None => None,
            Some(g) => {
                let t = txns.last();
                let debits = side_amounts(t.entries, EntryType::Debit);
                if !sum_fits(debits) {
                    None
                } else {
                    let item = CashFlowItemView { description: t.description, amount: sum(debits) };
                    match activity_of(t.entries, lower_of(t.description)) {
                        CashFlowActivity::Financing => Some((g.0, g.1, g.2.push(item))),
                        CashFlowActivity::Investing => Some((g.0, g.1.push(item), g.2)),
                        CashFlowActivity::Operating => Some((g.0.push(item), g.1, g.2)),
                    }
                }
            },
        }
    }
}

/// A heuristic cash-flow statement: transactions are sorted into operating,
/// investing and financing activities by the words in their account ids and
/// description, not derived from the ledger.
#[derive(Debug)]
pub struct CashFlowStatement {
    pub start_date: Date,
    pub end_date: Date,
    pub operating_activities: Vec<CashFlowItem>,
    pub investing_activities: Vec<CashFlowItem>,
    pub financing_activities: Vec<CashFlowItem>,
    pub net_operating_cash_flow: Decimal,
    pub net_investing_cash_flow: Decimal,
    pub net_financing_cash_flow: Decimal,
    pub net_cash_flow: Decimal,
}

pub struct CashFlowStatementView {
    pub start_date: Date,
    pub end_date: Date,
    pub operating_activities: Seq<CashFlowItemView>,
    pub investing_activities: Seq<CashFlowItemView>,
    pub financing_activities: Seq<CashFlowItemView>,
    pub net_operating_cash_flow: int,
    pub net_investing_cash_flow: int,
    pub net_financing_cash_flow: int,
    pub net_cash_flow: int,
}

impl View for CashFlowStatement {
    type V = CashFlowStatementView;

    open spec fn view(&self) -> CashFlowStatementView {
        CashFlowStatementView {
            start_date: self.start_date,
            end_date: self.end_date,
            operating_activities: item_views(self.operating_activities@),
            investing_activities: item_views(self.investing_activities@),
            financing_activities: item_views(self.financing_activities@),
            net_operating_cash_flow: self.net_operating_cash_flow@,
            net_investing_cash_flow: self.net_investing_cash_flow@,
            net_financing_cash_flow: self.net_financing_cash_flow@,
            net_cash_flow: self.net_cash_flow@,
        }
    }
}

/// The cash-flow statement of the transactions `txns` of the period, or
/// `None` where an amount cannot be held.
pub open spec fn cash_flow_of(txns: Seq<TransactionView>, start: Date, end: Date) -> Option<
    CashFlowStatementView,
> {
    match cash_flow_groups(txns) {
        None => None,
        Some(g) => {
            let op = checked_total(item_amounts(g.0));
            let inv = checked_total(item_amounts(g.1));
            let fin = checked_total(item_amounts(g.2));
            if op is None || inv is None || fin is None || !fits(op.unwrap() + inv.unwrap()) || !fits(
                op.unwrap() + inv.unwrap() + fin.unwrap(),
            ) {
                None
            } else {
                Some(
                    CashFlowStatementView {
                        start_date: start,
                        end_date: end,
                        operating_activities: g.0,
                        investing_activities: g.1,
                        financing_activities: g.2,
                        net_operating_cash_flow: op.unwrap(),
                        net_investing_cash_flow: inv.unwrap(),
                        net_financing_cash_flow: fin.unwrap(),
                        net_cash_flow: op.unwrap() + inv.unwrap() + fin.unwrap(),
                    },
                )
            }
        },
    }
}

fn items_total(items: &Vec<CashFlowItem>) -> (r: Option<Decimal>)
    ensures
        decimal_option_value(r) == checked_total(item_amounts(item_views(items@))),
{
    let ghost xs = item_amounts(item_views(items@));
    let mut total = Decimal::zero();
    let mut i: usize = 0;
    proof {
        assert(xs.take(0) =~= Seq::<int>::empty());
    }
    while i < items.len()
        invariant
            i <= items.len(),
            xs == item_amounts(item_views(items@)),
            total@ == sum(xs.take(i as int)),
            forall|k: int| 0 <= k <= i ==> fits(0 + #[trigger] sum(xs.take(k))),
        decreases items.len() - i,
    {
        proof {
            lemma_sum_take_next(xs, i as int);
        }
        match total.checked_add(&items[i].amount) {
            Some(t) => {
                total = t;
            },
            None => {
                return None;
            },
        }
        i += 1;
    }
    proof {
        assert(xs.take(xs.len() as int) =~= xs);
    }
    Some(total)
}

proof fn lemma_groups_prefix_none(txns: Seq<TransactionView>, i: int)
    requires
        0 <= i <= txns.len(),
        cash_flow_groups(txns.take(i)) is None,
    ensures
        cash_flow_groups(txns) is None,
    decreases txns.len() - i,
{
    if i < txns.len() {
        assert(txns.take(i + 1).drop_last() =~= txns.take(i));
        lemma_groups_prefix_none(txns, i + 1);
    } else {
        assert(txns.take(i) =~= txns);
    }
}

/// Sorts the transactions dated from `start_date` to `end_date` into
/// operating, investing and financing activities, each valued at its total
/// debits.
pub fn generate_cash_flow<S: LedgerStorage>(storage: &S, start_date: Date, end_date: Date) -> (r:
    LedgerResult<CashFlowStatement>)
    ensures
        ({
            let s = cash_flow_of(
                transactions_matching(
                    storage.contents().transactions,
                    None,
                    Some(start_date),
                    Some(end_date),
                ),
                start_date,
                end_date,
            );
            &&& r is Ok ==> s is Some && r->Ok_0@ == s.unwrap()
            &&& storage.never_fails() ==> (r is Ok == s is Some)
        }),
{
    let out_of_range = "cash flow total out of range";
    let transactions = storage.get_transactions(Some(start_date), Some(end_date))?;
    let ghost txns = transaction_views(transactions@);
    let mut operating: Vec<CashFlowItem> = Vec::new();
    let mut investing: Vec<CashFlowItem> = Vec::new();
    let mut financing: Vec<CashFlowItem> = Vec::new();
    let mut i: usize = 0;
    while i < transactions.len()
        invariant
            i <= transactions.len(),
            txns == transaction_views(transactions@),
            txns == transactions_matching(
                storage.contents().transactions,
                None,
                Some(start_date),
                Some(end_date),
            ),
            cash_flow_groups(txns.take(i as int)) == Some(
                (item_views(operating@), item_views(investing@), item_views(financing@)),
            ),
        decreases transactions.len() - i,
    {
        let t = &transactions[i];
        proof {
            assert(txns.take(i + 1).drop_last() =~= txns.take(i as int));
            assert(txns.take(i + 1).last() == t@);
        }
        let amount = match t.total_debits() {
            Some(a) => a,
            None => {
                proof {
                    lemma_groups_prefix_none(txns, i + 1);
                }
                return Err(LedgerError::Validation(out_of_range.to_string()));
            },
        };
        let item = CashFlowItem { description: t.description.clone(), amount };
        let lowered = lowercase(t.description.as_str());
        match classify_cash_flow(&t.entries, lowered.as_str()) {
            CashFlowActivity::Financing => {
                let ghost before = financing@;
                financing.push(item);
                proof {
                    assert(item_views(financing@) =~= item_views(before).push(item@));
                }
            },
            CashFlowActivity::Investing => {
                let ghost before = investing@;
                investing.push(item);
                proof {
                    assert(item_views(investing@) =~= item_views(before).push(item@));
                }
            },
            CashFlowActivity::Operating => {
                let ghost before = operating@;
                operating.push(item);
                proof {
                    assert(item_views(operating@) =~= item_views(before).push(item@));
                }
            },
        }
        i += 1;
    }
    proof {
        assert(txns.take(i as int) =~= txns);
    }
    let net_operating_cash_flow = match items_total(&operating) {
        Some(t) => t,
        None => {
            return Err(LedgerError::Validation(out_of_range.to_string()));
        },
    };
    let net_investing_cash_flow = match items_total(&investing) {
        Some(t) => t,
        None => {
            return Err(LedgerError::Validation(out_of_range.to_string()));
        },
    };
    let net_financing_cash_flow = match items_total(&financing) {
        Some(t) => t,
        None => {
            return Err(LedgerError::Validation(out_of_range.to_string()));
        },
    };
    let partial = match net_operating_cash_flow.checked_add(&net_investing_cash_flow) {
        Some(t) => t,
        None => {
            return Err(LedgerError::Validation(out_of_range.to_string()));
        },
    };
    let net_cash_flow = match partial.checked_add(&net_financing_cash_flow) {
        Some(t) => t,
        None => {
            return Err(LedgerError::Validation(out_of_range.to_string()));
        },
    };
    Ok(
        CashFlowStatement {
            start_date,
            end_date,
            operating_activities: operating,
            investing_activities: investing,
            financing_activities: financing,
            net_operating_cash_flow,
            net_investing_cash_flow,
            net_financing_cash_flow,
            net_cash_flow,
        },
    )
}

} // verus!
