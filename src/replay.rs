//! The balance-update rule applied to sequences of entries and
//! transactions: posting, reversal, and replay of history as of a date.

use vstd::prelude::*;

use crate::calendar::{date_le, Date};
use crate::decimal::{fits, Decimal};
use crate::storage::transaction_views;
use crate::types::{normal_side, signed_change, AccountType, Entry, Transaction, TransactionView};

verus! {

/// The change entry `e` makes to the balance of account `id` of type `t`;
/// negated where the entry is being reversed.
pub open spec fn entry_change(e: Entry, id: Seq<char>, t: AccountType, reversed: bool) -> int {
    if e.account_id@ == id {
        let c = signed_change(normal_side(t), e.entry_type, e.amount@);
        if reversed {
            -c
        } else {
            c
        }
    } else {
        0
    }
}

/// One checked step of a running balance.
pub open spec fn step(b: Option<int>, c: int) -> Option<int> {
    match b {
        Some(v) => if fits(v + c) {
            Some(v + c)
        } else {
            None
        },
        None => None,
    }
}

/// The balance of account `id` after applying `es` in order to `start`,
/// or `None` where some intermediate balance cannot be held.
pub open spec fn post_entries(
    start: Option<int>,
    es: Seq<Entry>,
    id: Seq<char>,
    t: AccountType,
    reversed: bool,
) -> Option<int>
    decreases es.len(),
{
    if es.len() == 0 {
        start
    } else {
        step(post_entries(start, es.drop_last(), id, t, reversed), entry_change(es.last(), id, t, reversed))
    }
}

/// The net change `es` makes to the balance of account `id`.
pub open spec fn posting_change(es: Seq<Entry>, id: Seq<char>, t: AccountType) -> int
    decreases es.len(),
{
    if es.len() == 0 {
        0
    } else {
        posting_change(es.drop_last(), id, t) + entry_change(es.last(), id, t, false)
    }
}

/// Whether a transaction dated `d` counts for a balance as of `as_of`
/// (`None`: every transaction counts).
pub open spec fn counts(d: Date, as_of: Option<Date>) -> bool {
    as_of is None || date_le(d, as_of.unwrap())
}

/// The net change of the counted transactions of `txns` to account `id`.
pub open spec fn history_change(
    txns: Seq<TransactionView>,
    id: Seq<char>,
    t: AccountType,
    as_of: Option<Date>,
) -> int
    decreases txns.len(),
{
    if txns.len() == 0 {
        0
    } else {
        history_change(txns.drop_last(), id, t, as_of) + if counts(txns.last().date, as_of) {
            posting_change(txns.last().entries, id, t)
        } else {
            0
        }
    }
}

/// Whether a transaction dated `d` lies in the window from `from` (if
/// given) to `to`, both inclusive.
pub open spec fn within(d: Date, from: Option<Date>, to: Date) -> bool {
    (from is None || date_le(from.unwrap(), d)) && date_le(d, to)
}

/// The balance of account `id` rebuilt from zero by replaying, in stored
/// order, every entry of the transactions dated within the window; `None`
/// where an intermediate balance cannot be held.
pub open spec fn replay_window(
    txns: Seq<TransactionView>,
    id: Seq<char>,
    t: AccountType,
    from: Option<Date>,
    to: Date,
) -> Option<int>
    decreases txns.len(),
{
    if txns.len() == 0 {
        Some(0)
    } else {
        let prev = replay_window(txns.drop_last(), id, t, from, to);
        if within(txns.last().date, from, to) {
            post_entries(prev, txns.last().entries, id, t, false)
        } else {
            prev
        }
    }
}

/// The balance of account `id` as of `as_of`, rebuilt from every
/// transaction dated on or before it.
pub open spec fn replay(txns: Seq<TransactionView>, id: Seq<char>, t: AccountType, as_of: Date) -> Option<
    int,
> {
    replay_window(txns, id, t, None, as_of)
}

pub open spec fn decimal_option_value(o: Option<Decimal>) -> Option<int> {
    match o {
        Some(d) => Some(d@),
        None => None,
    }
}

pub proof fn lemma_post_none(es: Seq<Entry>, id: Seq<char>, t: AccountType, reversed: bool)
    ensures
        post_entries(None, es, id, t, reversed) is None,
    decreases es.len(),
{
    if es.len() > 0 {
        lemma_post_none(es.drop_last(), id, t, reversed);
    }
}

/// A posting that succeeds changes the balance by the net change of the
/// entries, negated for a reversal.
pub proof fn lemma_post_value(start: int, es: Seq<Entry>, id: Seq<char>, t: AccountType, reversed: bool)
    requires
        post_entries(Some(start), es, id, t, reversed) is Some,
    ensures
        post_entries(Some(start), es, id, t, reversed).unwrap() == start + if reversed {
            -posting_change(es, id, t)
        } else {
            posting_change(es, id, t)
        },
    decreases es.len(),
{
    if es.len() > 0 {
        if post_entries(Some(start), es.drop_last(), id, t, reversed) is None {
            assert(step(None, entry_change(es.last(), id, t, reversed)) is None);
        }
        lemma_post_value(start, es.drop_last(), id, t, reversed);
    }
}

/// Once a running balance has overflowed, the whole posting fails.
pub proof fn lemma_post_prefix_none(
    start: Option<int>,
    es: Seq<Entry>,
    id: Seq<char>,
    t: AccountType,
    reversed: bool,
    j: int,
)
    requires
        0 <= j <= es.len(),
        post_entries(start, es.take(j), id, t, reversed) is None,
    ensures
        post_entries(start, es, id, t, reversed) is None,
    decreases es.len() - j,
{
    if j < es.len() {
        assert(es.take(j + 1).drop_last() =~= es.take(j));
        assert(es.take(j + 1).last() == es[j]);
        lemma_post_prefix_none(start, es, id, t, reversed, j + 1);
    } else {
        assert(es.take(j) =~= es);
    }
}

/// An entry that does not post to `id` leaves its balance alone.
pub proof fn lemma_post_untouched(start: int, es: Seq<Entry>, id: Seq<char>, t: AccountType, reversed: bool)
    requires
        fits(start),
        forall|i: int| 0 <= i < es.len() ==> #[trigger] es[i].account_id@ != id,
    ensures
        post_entries(Some(start), es, id, t, reversed) == Some(start),
    decreases es.len(),
{
    if es.len() > 0 {
        lemma_post_untouched(start, es.drop_last(), id, t, reversed);
        assert(es.last() == es[es.len() - 1]);
    }
}

pub proof fn lemma_replay_value(txns: Seq<TransactionView>, id: Seq<char>, t: AccountType, as_of: Date)
    requires
        replay(txns, id, t, as_of) is Some,
    ensures
        replay(txns, id, t, as_of).unwrap() == history_change(txns, id, t, Some(as_of)),
    decreases txns.len(),
{
    if txns.len() > 0 {
        let prev = replay(txns.drop_last(), id, t, as_of);
        assert(within(txns.last().date, None, as_of) == counts(txns.last().date, Some(as_of)));
        if prev is None {
            lemma_post_none(txns.last().entries, id, t, false);
        } else {
            lemma_replay_value(txns.drop_last(), id, t, as_of);
            if date_le(txns.last().date, as_of) {
                lemma_post_value(prev.unwrap(), txns.last().entries, id, t, false);
            }
        }
    }
}

pub proof fn lemma_replay_prefix_none(
    txns: Seq<TransactionView>,
    id: Seq<char>,
    t: AccountType,
    from: Option<Date>,
    to: Date,
    i: int,
)
    requires
        0 <= i <= txns.len(),
        replay_window(txns.take(i), id, t, from, to) is None,
    ensures
        replay_window(txns, id, t, from, to) is None,
    decreases txns.len() - i,
{
    if i < txns.len() {
        assert(txns.take(i + 1).drop_last() =~= txns.take(i));
        assert(txns.take(i + 1).last() == txns[i]);
        lemma_post_none(txns[i].entries, id, t, false);
        lemma_replay_prefix_none(txns, id, t, from, to, i + 1);
    } else {
        assert(txns.take(i) =~= txns);
    }
}

/// Applies `entries` in order to `balance` by the balance-update rule (each
/// entry flipped where `reversed`), or `None` where an intermediate balance
/// cannot be held.
pub fn post_to_balance(
    balance: Decimal,
    entries: &Vec<Entry>,
    account_id: &String,
    account_type: AccountType,
    reversed: bool,
) -> (r: Option<Decimal>)
    ensures
        decimal_option_value(r) == post_entries(
            Some(balance@),
            entries@,
            account_id@,
            account_type,
            reversed,
        ),
{
    let normal = account_type.normal_balance();
    let mut b = balance;
    let mut i: usize = 0;
    while i < entries.len()
        invariant
            i <= entries.len(),
            post_entries(Some(balance@), entries@.take(i as int), account_id@, account_type, reversed)
                == Some(b@),
            normal == normal_side(account_type),
        decreases entries.len() - i,
    {
        let e = &entries[i];
        proof {
            assert(entries@.take(i + 1).drop_last() =~= entries@.take(i as int));
            assert(entries@.take(i + 1).last() == entries@[i as int]);
        }
        if e.account_id == *account_id {
            let raise = (e.entry_type == normal) != reversed;
            let next = if raise {
                b.checked_add(&e.amount)
            } else {
                b.checked_sub(&e.amount)
            };
            match next {
                Some(v) => {
                    b = v;
                },
                None => {
                    proof {
                        lemma_post_prefix_none(
                            Some(balance@),
                            entries@,
                            account_id@,
                            account_type,
                            reversed,
                            i + 1,
                        );
                    }
                    return None;
                },
            }
        }
        i += 1;
    }
    proof {
        assert(entries@.take(i as int) =~= entries@);
    }
    Some(b)
}

/// The balance of account `account_id` rebuilt from zero out of the
/// transactions dated on or before `as_of`, ignoring the running balance.
pub fn replay_balance(
    transactions: &Vec<Transaction>,
    account_id: &String,
    account_type: AccountType,
    as_of: Date,
) -> (r: Option<Decimal>)
    ensures
        decimal_option_value(r) == replay(
            transaction_views(transactions@),
            account_id@,
            account_type,
            as_of,
        ),
{
    replay_balance_window(transactions, account_id, account_type, None, as_of)
}

/// The net change to account `account_id` of the transactions dated within
/// the window, replayed from zero.
pub fn replay_balance_window(
    transactions: &Vec<Transaction>,
    account_id: &String,
    account_type: AccountType,
    from: Option<Date>,
    to: Date,
) -> (r: Option<Decimal>)
    ensures
        decimal_option_value(r) == replay_window(
            transaction_views(transactions@),
            account_id@,
            account_type,
            from,
            to,
        ),
{
    let ghost txns = transaction_views(transactions@);
    let mut b = Decimal::zero();
    let mut i: usize = 0;
    while i < transactions.len()
        invariant
            i <= transactions.len(),
            txns == transaction_views(transactions@),
            replay_window(txns.take(i as int), account_id@, account_type, from, to) == Some(b@),
        decreases transactions.len() - i,
    {
        let t = &transactions[i];
        proof {
            assert(txns.take(i + 1).drop_last() =~= txns.take(i as int));
            assert(txns.take(i + 1).last() == txns[i as int]);
        }
        let after_from = match from {
            None => true,
            Some(f) => f.is_on_or_before(&t.date),
        };
        if after_from && t.date.is_on_or_before(&to) {
            match post_to_balance(b, &t.entries, account_id, account_type, false) {
                Some(v) => {
                    b = v;
                },
                None => {
                    proof {
                        lemma_replay_prefix_none(txns, account_id@, account_type, from, to, i + 1);
                    }
                    return None;
                },
            }
        }
        i += 1;
    }
    proof {
        assert(txns.take(i as int) =~= txns);
    }
    Some(b)
}

} // verus!
