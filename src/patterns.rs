//! Common transactions: two-entry postings and GST invoices and bills.

use vstd::prelude::*;

use crate::calendar::Date;
use crate::decimal::{fits, Decimal};
use crate::sums::{sum, sum_fits};
use crate::transaction::{BillPaymentWithGstParams, InvoiceWithGstParams, TransactionBuilder};
use crate::types::{
    entries_valid, side_amounts, text_option, Entry, EntryType, LedgerError, LedgerResult,
    Transaction, TransactionView,
};

verus! {

/// A transaction as built from its parts, with no reference or metadata.
pub open spec fn built(id: String, date: Date, description: String, entries: Seq<Entry>) -> TransactionView {
    TransactionView {
        id: id@,
        date,
        entries,
        description: description@,
        reference: None,
        metadata: Seq::empty(),
    }
}

/// Debit `amount` to one account and credit it to another.
pub open spec fn pair(
    debit_id: String,
    credit_id: String,
    amount: Decimal,
    debit_note: Option<String>,
    credit_note: Option<String>,
) -> Seq<Entry> {
    seq![
        Entry { account_id: debit_id, entry_type: EntryType::Debit, amount, description: debit_note },
        Entry { account_id: credit_id, entry_type: EntryType::Credit, amount, description: credit_note },
    ]
}

proof fn lemma_pair_valid(es: Seq<Entry>)
    requires
        es.len() == 2,
        es[0].entry_type == EntryType::Debit,
        es[1].entry_type == EntryType::Credit,
        es[0].amount == es[1].amount,
    ensures
        entries_valid(es) == (es[0].amount@ > 0),
{
    let x = es[0].amount@;
    let d = side_amounts(es, EntryType::Debit);
    let c = side_amounts(es, EntryType::Credit);
    assert(d =~= seq![x, 0]);
    assert(c =~= seq![0, x]);
    assert(d.take(0) =~= Seq::<int>::empty());
    assert(d.take(1) =~= seq![x]);
    assert(d.take(2) =~= d);
    assert(c.take(0) =~= Seq::<int>::empty());
    assert(c.take(1) =~= seq![0int]);
    assert(c.take(2) =~= c);
    reveal_with_fuel(sum, 3);
    assert(fits(x));
    assert(sum_fits(d));
    assert(sum_fits(c));
}

proof fn lemma_split_valid(es: Seq<Entry>, single: EntryType)
    requires
        es.len() == 3,
        es[0].entry_type == single,
        es[1].entry_type != single,
        es[2].entry_type != single,
        es[0].amount@ == es[1].amount@ + es[2].amount@,
    ensures
        entries_valid(es) == (es[1].amount@ > 0 && es[2].amount@ > 0),
{
    let x = es[0].amount@;
    let y = es[1].amount@;
    let z = es[2].amount@;
    let s = side_amounts(es, single);
    let o = side_amounts(es, es[1].entry_type);
    assert(s =~= seq![x, 0, 0]);
    assert(o =~= seq![0, y, z]);
    assert(s.take(0) =~= Seq::<int>::empty());
    assert(s.take(1) =~= seq![x]);
    assert(s.take(2) =~= seq![x, 0]);
    assert(s.take(3) =~= s);
    assert(o.take(0) =~= Seq::<int>::empty());
    assert(o.take(1) =~= seq![0int]);
    assert(o.take(2) =~= seq![0, y]);
    assert(o.take(3) =~= o);
    reveal_with_fuel(sum, 4);
    assert(fits(x));
    assert(fits(y));
    assert(fits(z));
    if y > 0 && z > 0 {
        assert(sum_fits(s));
        assert(sum_fits(o));
        if single == EntryType::Debit {
            assert(side_amounts(es, EntryType::Credit) == o);
        } else {
            assert(side_amounts(es, EntryType::Debit) == o);
        }
    }
}

proof fn lemma_split_last_valid(es: Seq<Entry>)
    requires
        es.len() == 3,
        es[0].entry_type == EntryType::Debit,
        es[1].entry_type == EntryType::Debit,
        es[2].entry_type == EntryType::Credit,
        es[2].amount@ == es[0].amount@ + es[1].amount@,
    ensures
        entries_valid(es) == (es[0].amount@ > 0 && es[1].amount@ > 0),
{
    let x = es[0].amount@;
    let y = es[1].amount@;
    let z = es[2].amount@;
    let d = side_amounts(es, EntryType::Debit);
    let c = side_amounts(es, EntryType::Credit);
    assert(d =~= seq![x, y, 0]);
    assert(c =~= seq![0, 0, z]);
    assert(d.take(0) =~= Seq::<int>::empty());
    assert(d.take(1) =~= seq![x]);
    assert(d.take(2) =~= seq![x, y]);
    assert(d.take(3) =~= d);
    assert(c.take(0) =~= Seq::<int>::empty());
    assert(c.take(1) =~= seq![0int]);
    assert(c.take(2) =~= seq![0int, 0int]);
    assert(c.take(3) =~= c);
    reveal_with_fuel(sum, 4);
    assert(fits(x));
    assert(fits(y));
    assert(fits(z));
    if x > 0 && y > 0 {
        assert(sum_fits(d));
        assert(sum_fits(c));
    }
}

fn two_entry(
    id: String,
    date: Date,
    description: String,
    debit_id: String,
    credit_id: String,
    amount: Decimal,
    debit_note: Option<String>,
    credit_note: Option<String>,
) -> (r: LedgerResult<Transaction>)
    ensures
        r is Ok == (amount@ > 0),
        r is Ok ==> r->Ok_0@ == built(
            id,
            date,
            description,
            pair(debit_id, credit_id, amount, debit_note, credit_note),
        ),
{
    let ghost es = pair(debit_id, credit_id, amount, debit_note, credit_note);
    let ghost (i, d, de) = (id, date, description);
    let b = TransactionBuilder::new(id, date, description).debit(debit_id, amount, debit_note).credit(
        credit_id,
        amount,
        credit_note,
    );
    proof {
        assert(b@.entries =~= es);
        lemma_pair_valid(es);
        assert(b@ == built(i, d, de, es));
    }
    b.build()
}

/// Debit an expense, credit cash.
pub fn create_expense_payment(
    id: String,
    date: Date,
    description: String,
    expense_account_id: String,
    cash_account_id: String,
    amount: Decimal,
) -> (r: LedgerResult<Transaction>)
    ensures
        r is Ok == (amount@ > 0),
        r is Ok ==> r->Ok_0@ == built(
            id,
            date,
            description,
            pair(expense_account_id, cash_account_id, amount, None, None),
        ),
{
    two_entry(id, date, description, expense_account_id, cash_account_id, amount, None, None)
}

/// Debit cash or receivables, credit revenue.
pub fn create_sales_transaction(
    id: String,
    date: Date,
    description: String,
    cash_or_receivables_account_id: String,
    revenue_account_id: String,
    amount: Decimal,
) -> (r: LedgerResult<Transaction>)
    ensures
        r is Ok == (amount@ > 0),
        r is Ok ==> r->Ok_0@ == built(
            id,
            date,
            description,
            pair(cash_or_receivables_account_id, revenue_account_id, amount, None, None),
        ),
{
    two_entry(
        id,
        date,
        description,
        cash_or_receivables_account_id,
        revenue_account_id,
        amount,
        None,
        None,
    )
}

/// Debit an asset, credit cash or payables.
pub fn create_asset_purchase(
    id: String,
    date: Date,
    description: String,
    asset_account_id: String,
    cash_or_payables_account_id: String,
    amount: Decimal,
) -> (r: LedgerResult<Transaction>)
    ensures
        r is Ok == (amount@ > 0),
        r is Ok ==> r->Ok_0@ == built(
            id,
            date,
            description,
            pair(asset_account_id, cash_or_payables_account_id, amount, None, None),
        ),
{
    two_entry(id, date, description, asset_account_id, cash_or_payables_account_id, amount, None, None)
}

/// Debit cash, credit the loan payable.
pub fn create_loan_received(
    id: String,
    date: Date,
    description: String,
    cash_account_id: String,
    loan_payable_account_id: String,
    amount: Decimal,
) -> (r: LedgerResult<Transaction>)
    ensures
        r is Ok == (amount@ > 0),
        r is Ok ==> r->Ok_0@.entries.len() == 2 && r->Ok_0@.entries[0].account_id == cash_account_id
            && r->Ok_0@.entries[0].entry_type == EntryType::Debit && r->Ok_0@.entries[0].amount
            == amount && r->Ok_0@.entries[1].account_id == loan_payable_account_id
            && r->Ok_0@.entries[1].entry_type == EntryType::Credit && r->Ok_0@.entries[1].amount
            == amount && r->Ok_0@.id == id@ && r->Ok_0@.date == date && r->Ok_0@.description
            == description@,
        r is Ok ==> text_option(r->Ok_0@.entries[0].description) == Some("Cash received from loan"@)
            && text_option(r->Ok_0@.entries[1].description) == Some("Loan payable"@),
{
    two_entry(
        id,
        date,
        description,
        cash_account_id,
        loan_payable_account_id,
        amount,
        Some("Cash received from loan".to_string()),
        Some("Loan payable".to_string()),
    )
}

/// Debit cash, credit the owner's equity.
pub fn create_owner_investment(
    id: String,
    date: Date,
    description: String,
    cash_account_id: String,
    equity_account_id: String,
    amount: Decimal,
) -> (r: LedgerResult<Transaction>)
    ensures
        r is Ok == (amount@ > 0),
        r is Ok ==> r->Ok_0@.entries.len() == 2 && r->Ok_0@.entries[0].account_id == cash_account_id
            && r->Ok_0@.entries[0].entry_type == EntryType::Debit && r->Ok_0@.entries[0].amount
            == amount && r->Ok_0@.entries[1].account_id == equity_account_id
            && r->Ok_0@.entries[1].entry_type == EntryType::Credit && r->Ok_0@.entries[1].amount
            == amount && r->Ok_0@.id == id@ && r->Ok_0@.date == date && r->Ok_0@.description
            == description@,
        r is Ok ==> text_option(r->Ok_0@.entries[0].description) == Some("Cash invested by owner"@)
            && text_option(r->Ok_0@.entries[1].description) == Some("Owner's equity contribution"@),
{
    two_entry(
        id,
        date,
        description,
        cash_account_id,
        equity_account_id,
        amount,
        Some("Cash invested by owner".to_string()),
        Some("Owner's equity contribution".to_string()),
    )
}

/// Debit receivables with base plus GST; credit revenue with the base and
/// GST payable with the GST.
pub fn create_invoice_with_gst(params: InvoiceWithGstParams) -> (r: LedgerResult<Transaction>)
    ensures
        r is Ok == (params.base_amount@ > 0 && params.gst_amount@ > 0 && fits(
            params.base_amount@ + params.gst_amount@,
        )),
        r is Ok ==> ({
            let es = r->Ok_0@.entries;
            &&& r->Ok_0@.id == params.id@ && r->Ok_0@.date == params.date
            &&& r->Ok_0@.description == params.description@
            &&& es.len() == 3
            &&& text_option(es[0].description) == Some("Total including GST"@)
            &&& text_option(es[1].description) == Some("Revenue amount"@)
            &&& text_option(es[2].description) == Some("GST payable"@)
            &&& es[0].account_id == params.receivables_account_id && es[0].entry_type
                == EntryType::Debit && es[0].amount@ == params.base_amount@ + params.gst_amount@
            &&& es[1].account_id == params.revenue_account_id && es[1].entry_type
                == EntryType::Credit && es[1].amount == params.base_amount
            &&& es[2].account_id == params.gst_payable_account_id && es[2].entry_type
                == EntryType::Credit && es[2].amount == params.gst_amount
        }),
{
    let total = match params.base_amount.checked_add(&params.gst_amount) {
        Some(t) => t,
        None => {
            return Err(LedgerError::InvalidTransaction("Invoice total out of range".to_string()));
        },
    };
    let b = TransactionBuilder::new(params.id, params.date, params.description).debit(
        params.receivables_account_id,
        total,
        Some("Total including GST".to_string()),
    ).credit(params.revenue_account_id, params.base_amount, Some("Revenue amount".to_string())).credit(
        params.gst_payable_account_id,
        params.gst_amount,
        Some("GST payable".to_string()),
    );
    proof {
        lemma_split_valid(b@.entries, EntryType::Debit);
    }
    b.build()
}

/// Debit the expense with the base and GST recoverable with the GST; credit
/// cash or payables with the total.
pub fn create_bill_payment_with_gst(params: BillPaymentWithGstParams) -> (r: LedgerResult<
    Transaction,
>)
    ensures
        r is Ok == (params.base_amount@ > 0 && params.gst_amount@ > 0 && fits(
            params.base_amount@ + params.gst_amount@,
        )),
        r is Ok ==> ({
            let es = r->Ok_0@.entries;
            &&& r->Ok_0@.id == params.id@ && r->Ok_0@.date == params.date
            &&& r->Ok_0@.description == params.description@
            &&& es.len() == 3
            &&& text_option(es[0].description) == Some("Expense amount"@)
            &&& text_option(es[1].description) == Some("GST recoverable"@)
            &&& text_option(es[2].description) == Some("Total payment"@)
            &&& es[0].account_id == params.expense_account_id && es[0].entry_type
                == EntryType::Debit && es[0].amount == params.base_amount
            &&& es[1].account_id == params.gst_recoverable_account_id && es[1].entry_type
                == EntryType::Debit && es[1].amount == params.gst_amount
            &&& es[2].account_id == params.cash_or_payables_account_id && es[2].entry_type
                == EntryType::Credit && es[2].amount@ == params.base_amount@ + params.gst_amount@
        }),
{
    let total = match params.base_amount.checked_add(&params.gst_amount) {
        Some(t) => t,
        None => {
            return Err(LedgerError::InvalidTransaction("Bill total out of range".to_string()));
        },
    };
    let b = TransactionBuilder::new(params.id, params.date, params.description).debit(
        params.expense_account_id,
        params.base_amount,
        Some("Expense amount".to_string()),
    ).debit(
        params.gst_recoverable_account_id,
        params.gst_amount,
        Some("GST recoverable".to_string()),
    ).credit(params.cash_or_payables_account_id, total, Some("Total payment".to_string()));
    proof {
        lemma_split_last_valid(b@.entries);
    }
    b.build()
}

} // verus!
