//! Posting, reversing and re-posting transactions against the stored
//! account balances.

use vstd::prelude::*;

use crate::calendar::now_millis;
use crate::decimal::Decimal;
use crate::replay::{lemma_post_untouched, post_entries, post_to_balance};
use crate::storage::{
    account_pos, account_views, accounts_of_type, find_transaction, has_account, ids_unique,
    posts_to, transaction_pos, upsert_transaction, LedgerStorage, StorageView,
};
use crate::traits::TransactionValidator;
use crate::types::{
    entries_valid, Account, AccountView, Entry, LedgerError, LedgerResult, Transaction,
    TransactionView,
};

verus! {

/// The balance of `a` after reversing `undo` and then applying `redo`, or
/// `None` where an intermediate balance cannot be held.
pub open spec fn repost(a: AccountView, undo: Seq<Entry>, redo: Seq<Entry>) -> Option<int> {
    match post_entries(Some(a.balance), undo, a.id, a.account_type, true) {
        None => None,
        Some(b) => post_entries(Some(b), redo, a.id, a.account_type, false),
    }
}

pub open spec fn can_repost(accts: Seq<AccountView>, undo: Seq<Entry>, redo: Seq<Entry>) -> bool {
    forall|p: int| 0 <= p < accts.len() ==> (#[trigger] repost(accts[p], undo, redo)) is Some
}

/// Every account with its balance re-posted.
pub open spec fn reposted(accts: Seq<AccountView>, undo: Seq<Entry>, redo: Seq<Entry>) -> Seq<
    AccountView,
> {
    accts.map_values(
        |a: AccountView| AccountView { balance: repost(a, undo, redo).unwrap(), ..a },
    )
}

/// Every entry names a stored account.
pub open spec fn references_exist(accts: Seq<AccountView>, es: Seq<Entry>) -> bool {
    forall|i: int| 0 <= i < es.len() ==> has_account(accts, #[trigger] es[i].account_id@)
}

/// What recording `t` does to the store. It is allowed exactly when the
/// validator accepts `t`, every entry names a stored account and every
/// posted balance can be held. Success means it was allowed: `t` is stored
/// and posted. Where it is not allowed it fails and nothing changes. On a
/// store that never fails it succeeds exactly when allowed.
pub open spec fn record_outcome<V: TransactionValidator>(
    v: V,
    before: StorageView,
    after: StorageView,
    t: TransactionView,
    reliable: bool,
    ok: bool,
) -> bool {
    let allowed = v.accepts_transaction(t) && v.accepts_references(t) && references_exist(
        before.accounts,
        t.entries,
    ) && can_repost(before.accounts, Seq::empty(), t.entries);
    &&& ok ==> allowed && entries_valid(t.entries)
    &&& ok ==> after.transactions == upsert_transaction(before.transactions, t) && after.accounts
        == reposted(before.accounts, Seq::empty(), t.entries)
    &&& !allowed ==> !ok && after == before
    &&& reliable ==> ok == allowed
}

/// Entry `k` of `es` is the first that names no account of `accts`.
pub open spec fn first_missing(accts: Seq<AccountView>, es: Seq<Entry>, k: int) -> bool {
    &&& 0 <= k < es.len()
    &&& !has_account(accts, es[k].account_id@)
    &&& forall|j: int| 0 <= j < k ==> has_account(accts, #[trigger] es[j].account_id@)
}

/// On a reliable store, a transaction the validator accepts but whose entry
/// `k` is the first to name a missing account fails with `AccountNotFound`
/// naming that account.
pub open spec fn missing_reported<V: TransactionValidator>(
    v: V,
    before: StorageView,
    t: TransactionView,
    reliable: bool,
    r: LedgerResult<()>,
) -> bool {
    forall|k: int|
        reliable && v.accepts_transaction(t) && v.accepts_references(t) && #[trigger] first_missing(
            before.accounts,
            t.entries,
            k,
        ) ==> r is Err && r->Err_0 is AccountNotFound && r->Err_0->AccountNotFound_0@
            == t.entries[k].account_id@
}

/// The validator's own errors come back unchanged, the transaction rule
/// checked before the reference rule.
pub open spec fn validator_errors_kept<V: TransactionValidator>(
    v: V,
    t: TransactionView,
    r: LedgerResult<()>,
) -> bool {
    &&& !v.accepts_transaction(t) ==> r is Err && v.transaction_error(t, r->Err_0)
    &&& v.accepts_transaction(t) && !v.accepts_references(t) ==> r is Err && v.reference_error(
        t,
        r->Err_0,
    )
}

/// What replacing the stored transaction of id `t.id` by `t` does. It is
/// allowed exactly when one is stored, the validator accepts `t`, and the
/// balances after reversing the stored entries and applying those of `t` can
/// be held.
pub open spec fn update_outcome<V: TransactionValidator>(
    v: V,
    before: StorageView,
    after: StorageView,
    t: TransactionView,
    reliable: bool,
    ok: bool,
) -> bool {
    let stored = find_transaction(before.transactions, t.id);
    let allowed = stored is Some && v.accepts_transaction(t) && v.accepts_references(t)
        && can_repost(before.accounts, stored.unwrap().entries, t.entries);
    &&& ok ==> allowed && entries_valid(t.entries)
    &&& ok ==> after.transactions == upsert_transaction(before.transactions, t) && after.accounts
        == reposted(before.accounts, stored.unwrap().entries, t.entries)
    &&& !allowed ==> !ok && after == before
    &&& reliable ==> ok == allowed
}

/// What deleting the transaction `id` does. It is allowed exactly when one
/// is stored and its reversal can be held; then its entries are reversed and
/// it is removed.
pub open spec fn delete_outcome(
    before: StorageView,
    after: StorageView,
    id: Seq<char>,
    reliable: bool,
    ok: bool,
) -> bool {
    let stored = find_transaction(before.transactions, id);
    let allowed = stored is Some && can_repost(before.accounts, stored.unwrap().entries, Seq::empty());
    &&& ok ==> allowed
    &&& ok ==> after.transactions == before.transactions.remove(
        transaction_pos(before.transactions, id),
    ) && after.accounts == reposted(before.accounts, stored.unwrap().entries, Seq::empty())
    &&& !allowed ==> !ok && after == before
    &&& reliable ==> ok == allowed
}

pub proof fn lemma_all_accounts(s: Seq<AccountView>)
    ensures
        accounts_of_type(s, None) == s,
    decreases s.len(),
{
    if s.len() > 0 {
        lemma_all_accounts(s.drop_last());
        assert(s.drop_last().push(s.last()) =~= s);
    }
}

/// The re-posted balance of every stored account, computed before anything
/// is written: the accounts in stored order and their new balances.
fn plan_repost<S: LedgerStorage>(storage: &S, undo: &Vec<Entry>, redo: &Vec<Entry>) -> (r:
    LedgerResult<(Vec<Account>, Vec<Decimal>)>)
    ensures
        ids_unique(storage.contents()),
        r is Ok ==> can_repost(storage.contents().accounts, undo@, redo@) && planned(
            storage.contents().accounts,
            r->Ok_0.0@,
            r->Ok_0.1@,
            undo@,
            redo@,
        ),
        !can_repost(storage.contents().accounts, undo@, redo@) ==> r is Err,
        storage.never_fails() && r is Err ==> r->Err_0 is Validation,
        storage.never_fails() ==> (r is Ok == can_repost(storage.contents().accounts, undo@, redo@)),
{
    let ghost accts = storage.contents().accounts;
    let accounts = storage.list_accounts(None)?;
    proof {
        lemma_all_accounts(accts);
    }
    let mut balances: Vec<Decimal> = Vec::new();
    let mut p: usize = 0;
    while p < accounts.len()
        invariant
            p <= accounts.len(),
            accts == storage.contents().accounts,
            ids_unique(storage.contents()),
            account_views(accounts@) == accts,
            balances.len() == p,
            forall|q: int|
                0 <= q < p ==> (#[trigger] repost(accts[q], undo@, redo@)) is Some
                    && repost(accts[q], undo@, redo@).unwrap() == balances@[q]@,
        decreases accounts.len() - p,
    {
        let a = &accounts[p];
        proof {
            assert(a@ == accts[p as int]);
        }
        let b1 = match post_to_balance(a.balance, undo, &a.id, a.account_type, true) {
            Some(b) => b,
            None => {
                proof {
                    assert(repost(accts[p as int], undo@, redo@) is None);
                }
                return Err(LedgerError::Validation("balance out of range".to_string()));
            },
        };
        let b2 = match post_to_balance(b1, redo, &a.id, a.account_type, false) {
            Some(b) => b,
            None => {
                proof {
                    assert(repost(accts[p as int], undo@, redo@) is None);
                }
                return Err(LedgerError::Validation("balance out of range".to_string()));
            },
        };
        balances.push(b2);
        p += 1;
    }
    Ok((accounts, balances))
}

/// `accounts` are the stored accounts and `balances` their re-posted
/// balances.
pub open spec fn planned(
    accts: Seq<AccountView>,
    accounts: Seq<Account>,
    balances: Seq<Decimal>,
    undo: Seq<Entry>,
    redo: Seq<Entry>,
) -> bool {
    &&& account_views(accounts) == accts
    &&& balances.len() == accts.len()
    &&& forall|q: int|
        0 <= q < accts.len() ==> (#[trigger] repost(accts[q], undo, redo)) is Some && repost(
            accts[q],
            undo,
            redo,
        ).unwrap() == balances[q]@
}

/// Writes the planned balances of the accounts that `undo` or `redo` post
/// to. Where the store fails a write, the accounts written before it keep
/// their new balances.
fn apply_repost<S: LedgerStorage>(
    storage: &mut S,
    accounts: &Vec<Account>,
    balances: &Vec<Decimal>,
    undo: &Vec<Entry>,
    redo: &Vec<Entry>,
) -> (r: LedgerResult<()>)
    requires
        ids_unique(old(storage).contents()),
        planned(old(storage).contents().accounts, accounts@, balances@, undo@, redo@),
    ensures
        final(storage).never_fails() == old(storage).never_fails(),
        r is Ok ==> final(storage).contents().accounts == reposted(
            old(storage).contents().accounts,
            undo@,
            redo@,
        ),
        final(storage).contents().transactions == old(storage).contents().transactions,
        old(storage).never_fails() ==> r is Ok,
{
    let ghost accts = old(storage).contents().accounts;
    let ghost target = reposted(accts, undo@, redo@);
    let mut p: usize = 0;
    while p < accounts.len()
        invariant
            p <= accounts.len(),
            planned(accts, accounts@, balances@, undo@, redo@),
            target == reposted(accts, undo@, redo@),
            ids_unique(storage.contents()),
            storage.never_fails() == old(storage).never_fails(),
            storage.contents().accounts.len() == accts.len(),
            storage.contents().transactions == old(storage).contents().transactions,
            accts == old(storage).contents().accounts,
            forall|q: int|
                0 <= q < accts.len() ==> #[trigger] storage.contents().accounts[q] == if q < p {
                    target[q]
                } else {
                    accts[q]
                },
        decreases accounts.len() - p,
    {
        let a = &accounts[p];
        proof {
            assert(a@ == accts[p as int]);
        }
        let in_undo = posts_to(undo, &a.id);
        let in_redo = posts_to(redo, &a.id);
        if in_undo || in_redo {
            let mut changed = a.clone();
            changed.balance = balances[p];
            changed.updated_at = now_millis();
            let ghost before = storage.contents().accounts;
            proof {
                assert(changed@ == target[p as int]);
                assert(before[p as int].id == changed@.id);
                let k = account_pos(before, changed@.id);
                assert(before[k].id == changed@.id);
                assert(k == p);
            }
            storage.update_account(&changed)?;
            proof {
                assert(storage.contents().accounts =~= before.update(p as int, target[p as int]));
            }
        } else {
            proof {
                let acc = accts[p as int];
                assert(acc.balance == a.balance.units as int);
                assert forall|i: int| 0 <= i < undo@.len() implies #[trigger] undo@[i].account_id@
                    != acc.id by {
                    if undo@[i].account_id@ == acc.id {
                        assert(undo@[i].account_id@ == a.id@);
                    }
                }
                assert forall|i: int| 0 <= i < redo@.len() implies #[trigger] redo@[i].account_id@
                    != acc.id by {
                    if redo@[i].account_id@ == acc.id {
                        assert(redo@[i].account_id@ == a.id@);
                    }
                }
                lemma_post_untouched(acc.balance, undo@, acc.id, acc.account_type, true);
                lemma_post_untouched(acc.balance, redo@, acc.id, acc.account_type, false);
                assert(target[p as int] == acc);
            }
        }
        p += 1;
    }
    proof {
        assert(storage.contents().accounts =~= target);
    }
    Ok(())
}

/// Validates `transaction`, checks that every entry names a stored account
/// and that every posted balance can be held, then stores the transaction
/// and posts its entries to the account balances.
pub fn record<S: LedgerStorage, V: TransactionValidator>(
    storage: &mut S,
    validator: &V,
    transaction: Transaction,
) -> (r: LedgerResult<()>)
    ensures
        final(storage).never_fails() == old(storage).never_fails(),
        record_outcome(
            *validator,
            old(storage).contents(),
            final(storage).contents(),
            transaction@,
            old(storage).never_fails(),
            r is Ok,
        ),
        missing_reported(
            *validator,
            old(storage).contents(),
            transaction@,
            old(storage).never_fails(),
            r,
        ),
        validator_errors_kept(*validator, transaction@, r),
{
    validator.validate_transaction(&transaction)?;
    validator.validate_account_references(&transaction)?;
    let mut i: usize = 0;
    while i < transaction.entries.len()
        invariant
            i <= transaction.entries.len(),
            storage.contents() == old(storage).contents(),
            storage.never_fails() == old(storage).never_fails(),
            validator.accepts_transaction(transaction@),
            validator.accepts_references(transaction@),
            forall|j: int|
                0 <= j < i ==> has_account(
                    storage.contents().accounts,
                    #[trigger] transaction.entries@[j].account_id@,
                ),
        decreases transaction.entries.len() - i,
    {
        match storage.get_account(transaction.entries[i].account_id.as_str())? {
            Some(_) => {},
            None => {
                proof {
                    assert(!has_account(
                        storage.contents().accounts,
                        transaction@.entries[i as int].account_id@,
                    ));
                }
                return Err(
                    LedgerError::AccountNotFound(transaction.entries[i].account_id.clone()),
                );
            },
        }
        i += 1;
    }
    let no_entries: Vec<Entry> = Vec::new();
    proof {
        assert(no_entries@ =~= Seq::<Entry>::empty());
    }
    let (accounts, balances) = plan_repost(storage, &no_entries, &transaction.entries)?;
    let ghost before = transaction@;
    let mut stamped = transaction;
    stamped.updated_at = now_millis();
    proof {
        assert(stamped@ == before);
    }
    storage.save_transaction(&stamped)?;
    apply_repost(storage, &accounts, &balances, &no_entries, &stamped.entries)?;
    Ok(())
}

/// Replaces the stored transaction of the same id: validates the new one,
/// reverses every entry of the stored one and applies every entry of the new
/// one.
pub fn update<S: LedgerStorage, V: TransactionValidator>(
    storage: &mut S,
    validator: &V,
    transaction: &Transaction,
) -> (r: LedgerResult<()>)
    ensures
        final(storage).never_fails() == old(storage).never_fails(),
        update_outcome(
            *validator,
            old(storage).contents(),
            final(storage).contents(),
            transaction@,
            old(storage).never_fails(),
            r is Ok,
        ),
        old(storage).never_fails() && find_transaction(
            old(storage).contents().transactions,
            transaction@.id,
        ) is None ==> r is Err && r->Err_0 is TransactionNotFound
            && r->Err_0->TransactionNotFound_0@ == transaction@.id,
        old(storage).never_fails() && find_transaction(
            old(storage).contents().transactions,
            transaction@.id,
        ) is Some ==> validator_errors_kept(*validator, transaction@, r),
{
    let stored = match storage.get_transaction(transaction.id.as_str())? {
        Some(t) => t,
        None => {
            return Err(LedgerError::TransactionNotFound(transaction.id.clone()));
        },
    };
    validator.validate_transaction(transaction)?;
    validator.validate_account_references(transaction)?;
    let (accounts, balances) = plan_repost(storage, &stored.entries, &transaction.entries)?;
    apply_repost(storage, &accounts, &balances, &stored.entries, &transaction.entries)?;
    storage.update_transaction(transaction)?;
    Ok(())
}

/// Reverses every entry of the stored transaction `transaction_id` and
/// removes it.
pub fn delete<S: LedgerStorage>(storage: &mut S, transaction_id: &str) -> (r: LedgerResult<()>)
    ensures
        final(storage).never_fails() == old(storage).never_fails(),
        delete_outcome(
            old(storage).contents(),
            final(storage).contents(),
            transaction_id@,
            old(storage).never_fails(),
            r is Ok,
        ),
        old(storage).never_fails() && find_transaction(
            old(storage).contents().transactions,
            transaction_id@,
        ) is None ==> r is Err && r->Err_0 is TransactionNotFound
            && r->Err_0->TransactionNotFound_0@ == transaction_id@,
{
    let stored = match storage.get_transaction(transaction_id)? {
        Some(t) => t,
        None => {
            return Err(LedgerError::TransactionNotFound(transaction_id.to_owned()));
        },
    };
    let no_entries: Vec<Entry> = Vec::new();
    proof {
        assert(no_entries@ =~= Seq::<Entry>::empty());
    }
    let (accounts, balances) = plan_repost(storage, &stored.entries, &no_entries)?;
    apply_repost(storage, &accounts, &balances, &stored.entries, &no_entries)?;
    storage.delete_transaction(transaction_id)?;
    Ok(())
}

} // verus!
