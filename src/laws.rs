//! Laws of the ledger: the running balances agree with the history of
//! transactions, and posting and reversal undo one another.

use vstd::prelude::*;

use crate::calendar::{date_le, Date};
use crate::recorder::{can_repost, repost, reposted};
use crate::replay::{
    counts, history_change, lemma_post_value, lemma_replay_value, post_entries, posting_change,
    replay,
};
use crate::storage::{
    find_transaction, has_transaction, touches, transaction_ids_unique, transaction_pos,
    upsert_transaction, StorageView,
};
use crate::types::{AccountType, AccountView, Entry, TransactionView};

verus! {

/// Every stored account's running balance equals the net change of all
/// stored transactions to it.
pub open spec fn balances_match_history(s: StorageView) -> bool {
    forall|p: int|
        0 <= p < s.accounts.len() ==> #[trigger] s.accounts[p].balance == history_change(
            s.transactions,
            s.accounts[p].id,
            s.accounts[p].account_type,
            None,
        )
}

/// A successful re-posting moves the balance by the reversed and the applied
/// net changes.
pub proof fn lemma_repost_value(a: AccountView, undo: Seq<Entry>, redo: Seq<Entry>)
    requires
        repost(a, undo, redo) is Some,
    ensures
        repost(a, undo, redo).unwrap() == a.balance - posting_change(undo, a.id, a.account_type)
            + posting_change(redo, a.id, a.account_type),
{
    let first = post_entries(Some(a.balance), undo, a.id, a.account_type, true);
    lemma_post_value(a.balance, undo, a.id, a.account_type, true);
    lemma_post_value(first.unwrap(), redo, a.id, a.account_type, false);
}

pub proof fn lemma_history_push(txns: Seq<TransactionView>, t: TransactionView, id: Seq<char>, ty: AccountType)
    ensures
        history_change(txns.push(t), id, ty, None) == history_change(txns, id, ty, None)
            + posting_change(t.entries, id, ty),
{
    assert(txns.push(t).drop_last() =~= txns);
}

pub proof fn lemma_history_update(
    txns: Seq<TransactionView>,
    k: int,
    t: TransactionView,
    id: Seq<char>,
    ty: AccountType,
)
    requires
        0 <= k < txns.len(),
    ensures
        history_change(txns.update(k, t), id, ty, None) == history_change(txns, id, ty, None)
            - posting_change(txns[k].entries, id, ty) + posting_change(t.entries, id, ty),
    decreases txns.len(),
{
    let u = txns.update(k, t);
    if k == txns.len() - 1 {
        assert(u.drop_last() =~= txns.drop_last());
    } else {
        lemma_history_update(txns.drop_last(), k, t, id, ty);
        assert(u.drop_last() =~= txns.drop_last().update(k, t));
    }
}

pub proof fn lemma_history_remove(txns: Seq<TransactionView>, k: int, id: Seq<char>, ty: AccountType)
    requires
        0 <= k < txns.len(),
    ensures
        history_change(txns.remove(k), id, ty, None) == history_change(txns, id, ty, None)
            - posting_change(txns[k].entries, id, ty),
    decreases txns.len(),
{
    let r = txns.remove(k);
    if k == txns.len() - 1 {
        assert(r =~= txns.drop_last());
    } else {
        lemma_history_remove(txns.drop_last(), k, id, ty);
        assert(r.drop_last() =~= txns.drop_last().remove(k));
    }
}

/// Counting only the transactions dated on or before `d` changes nothing
/// when none is dated later.
pub proof fn lemma_history_all_dated(txns: Seq<TransactionView>, id: Seq<char>, ty: AccountType, d: Date)
    requires
        forall|i: int| 0 <= i < txns.len() ==> date_le(#[trigger] txns[i].date, d),
    ensures
        history_change(txns, id, ty, Some(d)) == history_change(txns, id, ty, None),
    decreases txns.len(),
{
    if txns.len() > 0 {
        lemma_history_all_dated(txns.drop_last(), id, ty, d);
        assert(counts(txns.last().date, Some(d)));
    }
}

/// Recording a transaction under a new id keeps every running balance equal
/// to the net change of the stored history.
pub proof fn lemma_record_keeps_history(before: StorageView, after: StorageView, t: TransactionView)
    requires
        balances_match_history(before),
        !has_transaction(before.transactions, t.id),
        can_repost(before.accounts, Seq::empty(), t.entries),
        after.transactions == upsert_transaction(before.transactions, t),
        after.accounts == reposted(before.accounts, Seq::empty(), t.entries),
    ensures
        balances_match_history(after),
{
    assert forall|p: int| 0 <= p < after.accounts.len() implies #[trigger] after.accounts[p].balance
        == history_change(
        after.transactions,
        after.accounts[p].id,
        after.accounts[p].account_type,
        None,
    ) by {
        let a = before.accounts[p];
        assert(repost(a, Seq::empty(), t.entries) is Some);
        lemma_repost_value(a, Seq::empty(), t.entries);
        lemma_history_push(before.transactions, t, a.id, a.account_type);
    }
}

/// Updating a stored transaction keeps every running balance equal to the
/// net change of the stored history.
pub proof fn lemma_update_keeps_history(before: StorageView, after: StorageView, t: TransactionView)
    requires
        balances_match_history(before),
        has_transaction(before.transactions, t.id),
        can_repost(
            before.accounts,
            find_transaction(before.transactions, t.id).unwrap().entries,
            t.entries,
        ),
        after.transactions == upsert_transaction(before.transactions, t),
        after.accounts == reposted(
            before.accounts,
            find_transaction(before.transactions, t.id).unwrap().entries,
            t.entries,
        ),
    ensures
        balances_match_history(after),
{
    let k = transaction_pos(before.transactions, t.id);
    let old_entries = before.transactions[k].entries;
    assert forall|p: int| 0 <= p < after.accounts.len() implies #[trigger] after.accounts[p].balance
        == history_change(
        after.transactions,
        after.accounts[p].id,
        after.accounts[p].account_type,
        None,
    ) by {
        let a = before.accounts[p];
        assert(repost(a, old_entries, t.entries) is Some);
        lemma_repost_value(a, old_entries, t.entries);
        lemma_history_update(before.transactions, k, t, a.id, a.account_type);
    }
}

/// Deleting a stored transaction keeps every running balance equal to the
/// net change of the stored history.
pub proof fn lemma_delete_keeps_history(before: StorageView, after: StorageView, id: Seq<char>)
    requires
        balances_match_history(before),
        has_transaction(before.transactions, id),
        can_repost(
            before.accounts,
            find_transaction(before.transactions, id).unwrap().entries,
            Seq::empty(),
        ),
        after.transactions == before.transactions.remove(transaction_pos(before.transactions, id)),
        after.accounts == reposted(
            before.accounts,
            find_transaction(before.transactions, id).unwrap().entries,
            Seq::empty(),
        ),
    ensures
        balances_match_history(after),
{
    let k = transaction_pos(before.transactions, id);
    let old_entries = before.transactions[k].entries;
    assert forall|p: int| 0 <= p < after.accounts.len() implies #[trigger] after.accounts[p].balance
        == history_change(
        after.transactions,
        after.accounts[p].id,
        after.accounts[p].account_type,
        None,
    ) by {
        let a = before.accounts[p];
        assert(repost(a, old_entries, Seq::empty()) is Some);
        lemma_repost_value(a, old_entries, Seq::empty());
        lemma_history_remove(before.transactions, k, a.id, a.account_type);
    }
}

/// Where the running balances match the history, replaying every
/// transaction (as of a date no transaction is later than) gives back the
/// running balance.
pub proof fn lemma_replay_matches_running_balance(s: StorageView, p: int, d: Date)
    requires
        balances_match_history(s),
        0 <= p < s.accounts.len(),
        forall|i: int| 0 <= i < s.transactions.len() ==> date_le(#[trigger] s.transactions[i].date, d),
        replay(s.transactions, s.accounts[p].id, s.accounts[p].account_type, d) is Some,
    ensures
        replay(s.transactions, s.accounts[p].id, s.accounts[p].account_type, d).unwrap()
            == s.accounts[p].balance,
{
    let a = s.accounts[p];
    lemma_replay_value(s.transactions, a.id, a.account_type, d);
    lemma_history_all_dated(s.transactions, a.id, a.account_type, d);
}

/// After `t` is stored, looking up its id finds it.
pub proof fn lemma_find_after_upsert(s: Seq<TransactionView>, t: TransactionView)
    requires
        transaction_ids_unique(upsert_transaction(s, t)),
    ensures
        find_transaction(upsert_transaction(s, t), t.id) == Some(t),
{
    let u = upsert_transaction(s, t);
    let i = if has_transaction(s, t.id) {
        transaction_pos(s, t.id)
    } else {
        s.len() as int
    };
    assert(u[i] == t);
    let k = transaction_pos(u, t.id);
    assert(u[k].id == t.id);
}

/// Recording a transaction and then deleting it gives every account back its
/// balance from before, exactly.
pub proof fn lemma_delete_undoes_record(
    s0: StorageView,
    s1: StorageView,
    s2: StorageView,
    t: TransactionView,
)
    requires
        can_repost(s0.accounts, Seq::empty(), t.entries),
        s1.transactions == upsert_transaction(s0.transactions, t),
        s1.accounts == reposted(s0.accounts, Seq::empty(), t.entries),
        transaction_ids_unique(s1.transactions),
        can_repost(s1.accounts, find_transaction(s1.transactions, t.id).unwrap().entries, Seq::empty()),
        s2.accounts == reposted(
            s1.accounts,
            find_transaction(s1.transactions, t.id).unwrap().entries,
            Seq::empty(),
        ),
    ensures
        s2.accounts == s0.accounts,
{
    lemma_find_after_upsert(s0.transactions, t);
    assert forall|p: int| 0 <= p < s0.accounts.len() implies #[trigger] s2.accounts[p]
        == s0.accounts[p] by {
        let a = s0.accounts[p];
        assert(repost(a, Seq::empty(), t.entries) is Some);
        lemma_repost_value(a, Seq::empty(), t.entries);
        let a1 = s1.accounts[p];
        assert(repost(a1, t.entries, Seq::empty()) is Some);
        lemma_repost_value(a1, t.entries, Seq::empty());
        assert(posting_change(Seq::<Entry>::empty(), a.id, a.account_type) == 0);
    }
    assert(s2.accounts =~= s0.accounts);
}

/// Updating a transaction with an identical copy of itself leaves every
/// balance unchanged.
pub proof fn lemma_identical_update_keeps_balances(s0: StorageView, s1: StorageView, t: TransactionView)
    requires
        find_transaction(s0.transactions, t.id) == Some(t),
        can_repost(s0.accounts, t.entries, t.entries),
        s1.accounts == reposted(s0.accounts, t.entries, t.entries),
    ensures
        s1.accounts == s0.accounts,
{
    assert forall|p: int| 0 <= p < s0.accounts.len() implies #[trigger] s1.accounts[p]
        == s0.accounts[p] by {
        let a = s0.accounts[p];
        assert(repost(a, t.entries, t.entries) is Some);
        lemma_repost_value(a, t.entries, t.entries);
    }
    assert(s1.accounts =~= s0.accounts);
}

proof fn lemma_posting_untouched(es: Seq<Entry>, id: Seq<char>, ty: AccountType)
    requires
        forall|i: int| 0 <= i < es.len() ==> #[trigger] es[i].account_id@ != id,
    ensures
        posting_change(es, id, ty) == 0,
    decreases es.len(),
{
    if es.len() > 0 {
        assert(es.last() == es[es.len() - 1]);
        lemma_posting_untouched(es.drop_last(), id, ty);
    }
}

proof fn lemma_history_untouched(txns: Seq<TransactionView>, id: Seq<char>, ty: AccountType)
    requires
        forall|k: int| 0 <= k < txns.len() ==> !touches(#[trigger] txns[k], id),
    ensures
        history_change(txns, id, ty, None) == 0,
    decreases txns.len(),
{
    if txns.len() > 0 {
        let t = txns.last();
        assert(t == txns[txns.len() - 1]);
        lemma_posting_untouched(t.entries, id, ty);
        lemma_history_untouched(txns.drop_last(), id, ty);
    }
}

/// Creating an account that no stored transaction posts to keeps every
/// running balance equal to the net change of the stored history.
pub proof fn lemma_create_keeps_history(before: StorageView, after: StorageView, a: AccountView)
    requires
        balances_match_history(before),
        a.balance == 0,
        forall|k: int| 0 <= k < before.transactions.len() ==> !touches(
            #[trigger] before.transactions[k],
            a.id,
        ),
        after.accounts == before.accounts.push(a),
        after.transactions == before.transactions,
    ensures
        balances_match_history(after),
{
    lemma_history_untouched(before.transactions, a.id, a.account_type);
    assert forall|p: int| 0 <= p < after.accounts.len() implies #[trigger] after.accounts[p].balance
        == history_change(
        after.transactions,
        after.accounts[p].id,
        after.accounts[p].account_type,
        None,
    ) by {
        if p < before.accounts.len() {
            assert(after.accounts[p] == before.accounts[p]);
        }
    }
}

} // verus!
