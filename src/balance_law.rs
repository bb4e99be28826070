//! The trial balance of a consistent store always balances: each posted
//! transaction adds as much to the debit column as to the credit column.

use vstd::prelude::*;

use crate::calendar::{date_le, Date};
use crate::recorder::{record_outcome, references_exist, reposted};
use crate::replay::{entry_change, history_change, lemma_replay_value, posting_change, replay};
use crate::reports::{balance_sheet_of, line_net, line_nets, net_income_line};
use crate::storage::{
    account_ids_unique, balance_line, has_account, has_transaction, lines_of_type, transaction_pos,
    trial, StorageView,
};
use crate::sums::sum;
use crate::traits::TransactionValidator;
use crate::types::{
    entries_valid, normal_side, side_amounts, AccountBalanceView, AccountType, AccountView, Entry,
    EntryType,
    TransactionView,
};

verus! {

/// A balance seen from the debit side: as it is for debit-normal accounts,
/// negated for credit-normal ones.
pub open spec fn debit_side(b: int, t: AccountType) -> int {
    if normal_side(t) == EntryType::Debit {
        b
    } else {
        -b
    }
}

/// An entry's amount, negated for a credit.
pub open spec fn entry_debit(e: Entry) -> int {
    if e.entry_type == EntryType::Debit {
        e.amount@
    } else {
        -e.amount@
    }
}

/// Debits minus credits of the entries posting to `id`.
pub open spec fn net_debit(es: Seq<Entry>, id: Seq<char>) -> int
    decreases es.len(),
{
    if es.len() == 0 {
        0
    } else {
        net_debit(es.drop_last(), id) + if es.last().account_id@ == id {
            entry_debit(es.last())
        } else {
            0
        }
    }
}

/// Debits minus credits of all the entries.
pub open spec fn total_debit(es: Seq<Entry>) -> int
    decreases es.len(),
{
    if es.len() == 0 {
        0
    } else {
        total_debit(es.drop_last()) + entry_debit(es.last())
    }
}

/// The sum over `accts` of the debits minus credits of `es` posting to each.
pub open spec fn accounts_net(accts: Seq<AccountView>, es: Seq<Entry>) -> int
    decreases accts.len(),
{
    if accts.len() == 0 {
        0
    } else {
        accounts_net(accts.drop_last(), es) + net_debit(es, accts.last().id)
    }
}

/// `v` once for each account of `accts` whose id is `id`.
pub open spec fn matched_value(accts: Seq<AccountView>, id: Seq<char>, v: int) -> int
    decreases accts.len(),
{
    if accts.len() == 0 {
        0
    } else {
        matched_value(accts.drop_last(), id, v) + if accts.last().id == id {
            v
        } else {
            0
        }
    }
}

/// Debits minus credits posting to `id` of the transactions dated on or
/// before `d`.
pub open spec fn history_debit(txns: Seq<TransactionView>, id: Seq<char>, d: Date) -> int
    decreases txns.len(),
{
    if txns.len() == 0 {
        0
    } else {
        history_debit(txns.drop_last(), id, d) + if date_le(txns.last().date, d) {
            net_debit(txns.last().entries, id)
        } else {
            0
        }
    }
}

pub open spec fn accounts_history(accts: Seq<AccountView>, txns: Seq<TransactionView>, d: Date) -> int
    decreases accts.len(),
{
    if accts.len() == 0 {
        0
    } else {
        accounts_history(accts.drop_last(), txns, d) + history_debit(txns, accts.last().id, d)
    }
}

proof fn lemma_posting_debit_side(es: Seq<Entry>, id: Seq<char>, t: AccountType)
    ensures
        debit_side(posting_change(es, id, t), t) == net_debit(es, id),
    decreases es.len(),
{
    if es.len() > 0 {
        lemma_posting_debit_side(es.drop_last(), id, t);
        let e = es.last();
        assert(debit_side(entry_change(e, id, t, false), t) == if e.account_id@ == id {
            entry_debit(e)
        } else {
            0
        });
    }
}

proof fn lemma_history_debit_side(txns: Seq<TransactionView>, id: Seq<char>, t: AccountType, d: Date)
    ensures
        debit_side(history_change(txns, id, t, Some(d)), t) == history_debit(txns, id, d),
    decreases txns.len(),
{
    if txns.len() > 0 {
        lemma_history_debit_side(txns.drop_last(), id, t, d);
        lemma_posting_debit_side(txns.last().entries, id, t);
    }
}

/// The columns of a trial balance differ by the sum of the accounts'
/// debit-side histories.
proof fn lemma_trial_difference(accts: Seq<AccountView>, txns: Seq<TransactionView>, d: Date)
    requires
        trial(accts, txns, d) is Some,
    ensures
        trial(accts, txns, d).unwrap().1 - trial(accts, txns, d).unwrap().2 == accounts_history(
            accts,
            txns,
            d,
        ),
    decreases accts.len(),
{
    if accts.len() > 0 {
        lemma_trial_difference(accts.drop_last(), txns, d);
        let a = accts.last();
        lemma_replay_value(txns, a.id, a.account_type, d);
        lemma_history_debit_side(txns, a.id, a.account_type, d);
    }
}

proof fn lemma_accounts_history_push(
    accts: Seq<AccountView>,
    txns: Seq<TransactionView>,
    t: TransactionView,
    d: Date,
)
    ensures
        accounts_history(accts, txns.push(t), d) == accounts_history(accts, txns, d) + if date_le(
            t.date,
            d,
        ) {
            accounts_net(accts, t.entries)
        } else {
            0
        },
    decreases accts.len(),
{
    assert(txns.push(t).drop_last() =~= txns);
    if accts.len() > 0 {
        lemma_accounts_history_push(accts.drop_last(), txns, t, d);
    }
}

proof fn lemma_accounts_net_push(accts: Seq<AccountView>, es: Seq<Entry>, e: Entry)
    ensures
        accounts_net(accts, es.push(e)) == accounts_net(accts, es) + matched_value(
            accts,
            e.account_id@,
            entry_debit(e),
        ),
    decreases accts.len(),
{
    assert(es.push(e).drop_last() =~= es);
    if accts.len() > 0 {
        lemma_accounts_net_push(accts.drop_last(), es, e);
    }
}

proof fn lemma_unmatched(accts: Seq<AccountView>, id: Seq<char>, v: int)
    requires
        !has_account(accts, id),
    ensures
        matched_value(accts, id, v) == 0,
    decreases accts.len(),
{
    if accts.len() > 0 {
        assert(accts.last() == accts[accts.len() - 1]);
        assert(!has_account(accts.drop_last(), id)) by {
            if has_account(accts.drop_last(), id) {
                let p = choose|p: int|
                    0 <= p < accts.drop_last().len() && #[trigger] accts.drop_last()[p].id == id;
                assert(accts[p].id == id);
            }
        }
        lemma_unmatched(accts.drop_last(), id, v);
    }
}

proof fn lemma_matched_once(accts: Seq<AccountView>, id: Seq<char>, v: int)
    requires
        account_ids_unique(accts),
        has_account(accts, id),
    ensures
        matched_value(accts, id, v) == v,
    decreases accts.len(),
{
    let n = accts.len() - 1;
    let rest = accts.drop_last();
    assert(accts.last() == accts[n]);
    assert(account_ids_unique(rest)) by {
        assert forall|i: int, j: int|
            0 <= i < rest.len() && 0 <= j < rest.len() && #[trigger] rest[i].id == #[trigger] rest[j].id
            implies i == j by {
            assert(accts[i].id == accts[j].id);
        }
    }
    if accts[n].id == id {
        assert(!has_account(rest, id)) by {
            if has_account(rest, id) {
                let p = choose|p: int| 0 <= p < rest.len() && #[trigger] rest[p].id == id;
                assert(accts[p].id == accts[n].id);
            }
        }
        lemma_unmatched(rest, id, v);
    } else {
        assert(has_account(rest, id)) by {
            let p = choose|p: int| 0 <= p < accts.len() && #[trigger] accts[p].id == id;
            assert(p != n);
            assert(rest[p].id == id);
        }
        lemma_matched_once(rest, id, v);
    }
}

proof fn lemma_accounts_net_total(accts: Seq<AccountView>, es: Seq<Entry>)
    requires
        account_ids_unique(accts),
        references_exist(accts, es),
    ensures
        accounts_net(accts, es) == total_debit(es),
    decreases es.len(),
{
    if es.len() == 0 {
        lemma_accounts_net_empty(accts, es);
    } else {
        let rest = es.drop_last();
        let e = es.last();
        assert(references_exist(accts, rest)) by {
            assert forall|i: int| 0 <= i < rest.len() implies has_account(
                accts,
                #[trigger] rest[i].account_id@,
            ) by {
                assert(rest[i] == es[i]);
            }
        }
        lemma_accounts_net_total(accts, rest);
        assert(rest.push(e) =~= es);
        lemma_accounts_net_push(accts, rest, e);
        assert(e == es[es.len() - 1]);
        lemma_matched_once(accts, e.account_id@, entry_debit(e));
    }
}

proof fn lemma_accounts_net_empty(accts: Seq<AccountView>, es: Seq<Entry>)
    requires
        es.len() == 0,
    ensures
        accounts_net(accts, es) == 0,
    decreases accts.len(),
{
    if accts.len() > 0 {
        lemma_accounts_net_empty(accts.drop_last(), es);
    }
}

proof fn lemma_total_debit_sides(es: Seq<Entry>)
    ensures
        total_debit(es) == sum(side_amounts(es, EntryType::Debit)) - sum(
            side_amounts(es, EntryType::Credit),
        ),
    decreases es.len(),
{
    if es.len() > 0 {
        lemma_total_debit_sides(es.drop_last());
        assert(side_amounts(es, EntryType::Debit).drop_last() =~= side_amounts(
            es.drop_last(),
            EntryType::Debit,
        ));
        assert(side_amounts(es, EntryType::Credit).drop_last() =~= side_amounts(
            es.drop_last(),
            EntryType::Credit,
        ));
    }
}

/// Every stored transaction balances and posts only to stored accounts.
pub open spec fn postings_consistent(s: StorageView) -> bool {
    forall|i: int|
        0 <= i < s.transactions.len() ==> entries_valid(#[trigger] s.transactions[i].entries)
            && references_exist(s.accounts, s.transactions[i].entries)
}

proof fn lemma_history_nets_to_zero(accts: Seq<AccountView>, txns: Seq<TransactionView>, d: Date)
    requires
        account_ids_unique(accts),
        forall|i: int|
            0 <= i < txns.len() ==> entries_valid(#[trigger] txns[i].entries) && references_exist(
                accts,
                txns[i].entries,
            ),
    ensures
        accounts_history(accts, txns, d) == 0,
    decreases txns.len(),
{
    if txns.len() == 0 {
        lemma_accounts_history_empty(accts, txns, d);
    } else {
        let rest = txns.drop_last();
        let t = txns.last();
        assert(t == txns[txns.len() - 1]);
        assert forall|i: int| 0 <= i < rest.len() implies entries_valid(
            #[trigger] rest[i].entries,
        ) && references_exist(accts, rest[i].entries) by {
            assert(rest[i] == txns[i]);
        }
        lemma_history_nets_to_zero(accts, rest, d);
        assert(rest.push(t) =~= txns);
        lemma_accounts_history_push(accts, rest, t, d);
        lemma_accounts_net_total(accts, t.entries);
        lemma_total_debit_sides(t.entries);
    }
}

proof fn lemma_accounts_history_empty(accts: Seq<AccountView>, txns: Seq<TransactionView>, d: Date)
    requires
        txns.len() == 0,
    ensures
        accounts_history(accts, txns, d) == 0,
    decreases accts.len(),
{
    if accts.len() > 0 {
        lemma_accounts_history_empty(accts.drop_last(), txns, d);
    }
}

/// Where account ids are unique and every stored transaction balances and
/// posts only to stored accounts, the trial balance as of any date has equal
/// debit and credit totals, whenever it can be computed.
pub proof fn lemma_trial_balance_balances(s: StorageView, as_of: Date)
    requires
        account_ids_unique(s.accounts),
        postings_consistent(s),
        trial(s.accounts, s.transactions, as_of) is Some,
    ensures
        trial(s.accounts, s.transactions, as_of).unwrap().1 == trial(
            s.accounts,
            s.transactions,
            as_of,
        ).unwrap().2,
{
    lemma_trial_difference(s.accounts, s.transactions, as_of);
    lemma_history_nets_to_zero(s.accounts, s.transactions, as_of);
}

proof fn lemma_reposted_ids(accts: Seq<AccountView>, undo: Seq<Entry>, redo: Seq<Entry>, id: Seq<char>)
    ensures
        has_account(reposted(accts, undo, redo), id) == has_account(accts, id),
{
    let r = reposted(accts, undo, redo);
    if has_account(accts, id) {
        let p = choose|p: int| 0 <= p < accts.len() && #[trigger] accts[p].id == id;
        assert(r[p].id == id);
    }
    if has_account(r, id) {
        let p = choose|p: int| 0 <= p < r.len() && #[trigger] r[p].id == id;
        assert(accts[p].id == id);
    }
}

/// Recording a transaction keeps every stored transaction balanced and
/// posting only to stored accounts.
pub proof fn lemma_record_keeps_postings_consistent<V: TransactionValidator>(
    v: V,
    before: StorageView,
    after: StorageView,
    t: TransactionView,
    reliable: bool,
)
    requires
        postings_consistent(before),
        record_outcome(v, before, after, t, reliable, true),
    ensures
        postings_consistent(after),
{
    let accts = before.accounts;
    let e = Seq::<Entry>::empty();
    assert forall|id: Seq<char>| #[trigger] has_account(after.accounts, id) == has_account(accts, id) by {
        lemma_reposted_ids(accts, e, t.entries, id);
    }
    let s = before.transactions;
    let u = after.transactions;
    assert forall|i: int| 0 <= i < u.len() implies entries_valid(#[trigger] u[i].entries)
        && references_exist(after.accounts, u[i].entries) by {
        let w = if i < s.len() && u[i] == s[i] {
            s[i]
        } else {
            t
        };
        if has_transaction(s, t.id) {
            let k = transaction_pos(s, t.id);
            if i != k {
                assert(u[i] == s[i]);
            }
        } else if i < s.len() {
            assert(u[i] == s[i]);
        }
        assert(u[i] == w);
        assert forall|j: int| 0 <= j < w.entries.len() implies has_account(
            after.accounts,
            #[trigger] w.entries[j].account_id@,
        ) by {
            assert(has_account(accts, w.entries[j].account_id@));
        }
    }
}

proof fn lemma_nets_push(lines: Seq<AccountBalanceView>, l: AccountBalanceView, credit_side: bool)
    ensures
        sum(line_nets(lines.push(l), credit_side)) == sum(line_nets(lines, credit_side)) + line_net(
            l,
            credit_side,
        ),
{
    assert(line_nets(lines.push(l), credit_side).drop_last() =~= line_nets(lines, credit_side));
}

proof fn lemma_credit_nets_negate(lines: Seq<AccountBalanceView>)
    ensures
        sum(line_nets(lines, true)) == -sum(line_nets(lines, false)),
    decreases lines.len(),
{
    if lines.len() > 0 {
        lemma_credit_nets_negate(lines.drop_last());
        assert(lines.drop_last().push(lines.last()) =~= lines);
        lemma_nets_push(lines.drop_last(), lines.last(), true);
        lemma_nets_push(lines.drop_last(), lines.last(), false);
    }
}

/// The debit-side totals of the five account-type groups.
pub open spec fn groups_debit_sum(lines: Seq<AccountBalanceView>) -> int {
    sum(line_nets(lines_of_type(lines, AccountType::Asset), false)) + sum(
        line_nets(lines_of_type(lines, AccountType::Liability), false),
    ) + sum(line_nets(lines_of_type(lines, AccountType::Equity), false)) + sum(
        line_nets(lines_of_type(lines, AccountType::Income), false),
    ) + sum(line_nets(lines_of_type(lines, AccountType::Expense), false))
}

proof fn lemma_groups_cover(lines: Seq<AccountBalanceView>)
    ensures
        groups_debit_sum(lines) == sum(line_nets(lines, false)),
    decreases lines.len(),
{
    if lines.len() > 0 {
        let rest = lines.drop_last();
        let l = lines.last();
        lemma_groups_cover(rest);
        assert(rest.push(l) =~= lines);
        lemma_nets_push(rest, l, false);
        lemma_nets_push(lines_of_type(rest, l.account.account_type), l, false);
    } else {
        assert(line_nets(lines, false) =~= Seq::<int>::empty());
    }
}

proof fn lemma_trial_lines_net(accts: Seq<AccountView>, txns: Seq<TransactionView>, d: Date)
    requires
        trial(accts, txns, d) is Some,
    ensures
        sum(line_nets(trial(accts, txns, d).unwrap().0, false)) == trial(accts, txns, d).unwrap().1
            - trial(accts, txns, d).unwrap().2,
    decreases accts.len(),
{
    if accts.len() > 0 {
        lemma_trial_lines_net(accts.drop_last(), txns, d);
        let prev = trial(accts.drop_last(), txns, d).unwrap();
        let a = accts.last();
        let b = replay(txns, a.id, a.account_type, d).unwrap();
        lemma_nets_push(prev.0, balance_line(a, b), false);
    } else {
        assert(line_nets(Seq::<AccountBalanceView>::empty(), false) =~= Seq::<int>::empty());
    }
}

/// Where account ids are unique and every stored transaction balances and
/// posts only to stored accounts, the balance sheet as of any date
/// balances, whenever it can be computed: assets equal liabilities plus
/// equity, with the period's net income, profit or loss, folded into
/// equity.
pub proof fn lemma_balance_sheet_balances(s: StorageView, as_of: Date)
    requires
        account_ids_unique(s.accounts),
        postings_consistent(s),
        trial(s.accounts, s.transactions, as_of) is Some,
        balance_sheet_of(trial(s.accounts, s.transactions, as_of).unwrap().0, as_of) is Some,
    ensures
        balance_sheet_of(trial(s.accounts, s.transactions, as_of).unwrap().0, as_of).unwrap().is_balanced,
{
    let t = trial(s.accounts, s.transactions, as_of).unwrap();
    let lines = t.0;
    lemma_trial_balance_balances(s, as_of);
    lemma_trial_lines_net(s.accounts, s.transactions, as_of);
    lemma_groups_cover(lines);
    lemma_credit_nets_negate(lines_of_type(lines, AccountType::Liability));
    lemma_credit_nets_negate(lines_of_type(lines, AccountType::Equity));
    lemma_credit_nets_negate(lines_of_type(lines, AccountType::Income));
    let eq = lines_of_type(lines, AccountType::Equity);
    let income = sum(line_nets(lines_of_type(lines, AccountType::Income), true));
    let expenses = sum(line_nets(lines_of_type(lines, AccountType::Expense), false));
    let net = income - expenses;
    if net != 0 {
        lemma_nets_push(eq, net_income_line(net), true);
    }
}

} // verus!
