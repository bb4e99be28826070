//! Field rules for account ids, names and descriptions, and the stricter
//! validators built from them.

use vstd::prelude::*;
use vstd::utf8::encode_utf8;

use crate::decimal::Decimal;
use crate::traits::{AccountValidator, TransactionValidator};
use crate::types::{
    entries_valid, Account, AccountView, Entry, LedgerError, LedgerResult, Transaction,
    TransactionView,
};

verus! {

/// Longest account id, in UTF-8 bytes.
pub const MAX_ACCOUNT_ID_BYTES: usize = 50;

/// Longest account name, in UTF-8 bytes.
pub const MAX_ACCOUNT_NAME_BYTES: usize = 100;

/// Longest transaction description, in UTF-8 bytes.
pub const MAX_DESCRIPTION_BYTES: usize = 500;

/// Whether `c` has the Unicode `White_Space` property.
pub uninterp spec fn white_space(c: char) -> bool;

/// Whether `c` is alphabetic or numeric in Unicode's sense.
pub uninterp spec fn alphanumeric(c: char) -> bool;

/// Relies on `char::is_whitespace`: the Unicode `White_Space` property,
/// which is also what `str::trim` strips.
#[verifier::external_body]
fn is_white_space(c: char) -> (r: bool)
    ensures
        r == white_space(c),
{
    c.is_whitespace()
}

/// Relies on `char::is_alphanumeric`: Unicode `Alphabetic` or `Numeric`.
#[verifier::external_body]
fn is_alphanumeric(c: char) -> (r: bool)
    ensures
        r == alphanumeric(c),
{
    c.is_alphanumeric()
}

/// White space as `str::trim` strips it: in ASCII, the space and `\t`
/// through `\r`; beyond ASCII, the Unicode `White_Space` property.
pub open spec fn is_space(c: char) -> bool {
    if (c as u32) < 128 {
        c as u32 == 32 || (9 <= c as u32 && c as u32 <= 13)
    } else {
        white_space(c)
    }
}

/// Letters and digits: in ASCII, `0-9`, `A-Z` and `a-z`; beyond ASCII, the
/// Unicode `Alphabetic` and `Numeric` properties.
pub open spec fn is_letter_or_digit(c: char) -> bool {
    if (c as u32) < 128 {
        (48 <= c as u32 && c as u32 <= 57) || (65 <= c as u32 && c as u32 <= 90) || (97 <= c as u32
            && c as u32 <= 122)
    } else {
        alphanumeric(c)
    }
}

fn space_char(c: char) -> (r: bool)
    ensures
        r == is_space(c),
{
    let u = c as u32;
    if u < 128 {
        u == 32 || (9 <= u && u <= 13)
    } else {
        is_white_space(c)
    }
}

fn letter_or_digit(c: char) -> (r: bool)
    ensures
        r == is_letter_or_digit(c),
{
    let u = c as u32;
    if u < 128 {
        (48 <= u && u <= 57) || (65 <= u && u <= 90) || (97 <= u && u <= 122)
    } else {
        is_alphanumeric(c)
    }
}

/// Empty, or white space only: what is left after trimming is empty.
pub open spec fn blank(s: Seq<char>) -> bool {
    forall|i: int| 0 <= i < s.len() ==> is_space(#[trigger] s[i])
}

/// Length in UTF-8 bytes, as `str::len` reports it.
pub open spec fn byte_len(s: Seq<char>) -> int {
    (encode_utf8(s).len() as usize) as int
}

pub open spec fn id_char(c: char) -> bool {
    is_letter_or_digit(c) || c == '-' || c == '_'
}

/// A well-formed account id: not blank, at most `MAX_ACCOUNT_ID_BYTES`
/// bytes, only alphanumerics, dashes and underscores.
pub open spec fn valid_account_id(s: Seq<char>) -> bool {
    &&& !blank(s)
    &&& byte_len(s) <= MAX_ACCOUNT_ID_BYTES
    &&& forall|i: int| 0 <= i < s.len() ==> id_char(#[trigger] s[i])
}

pub open spec fn valid_account_name(s: Seq<char>) -> bool {
    !blank(s) && byte_len(s) <= MAX_ACCOUNT_NAME_BYTES
}

pub open spec fn valid_description(s: Seq<char>) -> bool {
    !blank(s) && byte_len(s) <= MAX_DESCRIPTION_BYTES
}

/// Whether the text is empty or white space only.
pub fn is_blank(s: &str) -> (r: bool)
    ensures
        r == blank(s@),
{
    let n = s.unicode_len();
    let mut i: usize = 0;
    while i < n
        invariant
            n == s@.len(),
            i <= n,
            forall|j: int| 0 <= j < i ==> is_space(#[trigger] s@[j]),
        decreases n - i,
    {
        if !space_char(s.get_char(i)) {
            return false;
        }
        i += 1;
    }
    true
}

/// The amount is strictly positive.
pub fn validate_positive_amount(amount: &Decimal) -> (r: LedgerResult<()>)
    ensures
        r is Ok == (amount@ > 0),
        r is Err ==> r->Err_0 is Validation,
{
    if !amount.is_positive() {
        Err(LedgerError::Validation("Amount must be positive".to_string()))
    } else {
        Ok(())
    }
}

/// The id is not blank, at most `MAX_ACCOUNT_ID_BYTES` bytes long, and made
/// of alphanumerics, dashes and underscores.
pub fn validate_account_id(account_id: &str) -> (r: LedgerResult<()>)
    ensures
        r is Ok == valid_account_id(account_id@),
        r is Err ==> r->Err_0 is Validation,
{
    if is_blank(account_id) {
        return Err(LedgerError::Validation("Account ID cannot be empty".to_string()));
    }
    if account_id.len() > MAX_ACCOUNT_ID_BYTES {
        return Err(LedgerError::Validation("Account ID cannot exceed 50 characters".to_string()));
    }
    let n = account_id.unicode_len();
    let mut i: usize = 0;
    while i < n
        invariant
            n == account_id@.len(),
            i <= n,
            forall|j: int| 0 <= j < i ==> id_char(#[trigger] account_id@[j]),
        decreases n - i,
    {
        let c = account_id.get_char(i);
        if !(letter_or_digit(c) || c == '-' || c == '_') {
            return Err(
                LedgerError::Validation(
                    "Account ID can only contain alphanumeric characters, dashes, and underscores".to_string(),
                ),
            );
        }
        i += 1;
    }
    Ok(())
}

/// The name is not blank and at most `MAX_ACCOUNT_NAME_BYTES` bytes long.
pub fn validate_account_name(name: &str) -> (r: LedgerResult<()>)
    ensures
        r is Ok == valid_account_name(name@),
        r is Err ==> r->Err_0 is Validation,
{
    if is_blank(name) {
        return Err(LedgerError::Validation("Account name cannot be empty".to_string()));
    }
    if name.len() > MAX_ACCOUNT_NAME_BYTES {
        return Err(
            LedgerError::Validation("Account name cannot exceed 100 characters".to_string()),
        );
    }
    Ok(())
}

/// The description is not blank and at most `MAX_DESCRIPTION_BYTES` bytes
/// long.
pub fn validate_transaction_description(description: &str) -> (r: LedgerResult<()>)
    ensures
        r is Ok == valid_description(description@),
        r is Err ==> r->Err_0 is Validation,
{
    if is_blank(description) {
        return Err(
            LedgerError::Validation("Transaction description cannot be empty".to_string()),
        );
    }
    if description.len() > MAX_DESCRIPTION_BYTES {
        return Err(
            LedgerError::Validation(
                "Transaction description cannot exceed 500 characters".to_string(),
            ),
        );
    }
    Ok(())
}

/// No account appears twice on the same side.
pub open spec fn sides_distinct(es: Seq<Entry>) -> bool {
    forall|i: int, j: int|
        0 <= i < j < es.len() ==> !(#[trigger] es[i].account_id@ == #[trigger] es[j].account_id@
            && es[i].entry_type == es[j].entry_type)
}

/// What the stricter transaction validator accepts.
pub open spec fn strictly_valid_transaction(t: TransactionView) -> bool {
    &&& entries_valid(t.entries)
    &&& valid_description(t.description)
    &&& forall|i: int| 0 <= i < t.entries.len() ==> valid_account_id(#[trigger] t.entries[i].account_id@)
    &&& sides_distinct(t.entries)
}

/// Transaction validator that adds description, account-id and
/// repeated-side checks to the double-entry rules.
pub struct EnhancedTransactionValidator;

impl TransactionValidator for EnhancedTransactionValidator {
    open spec fn accepts_transaction(&self, t: TransactionView) -> bool {
        strictly_valid_transaction(t)
    }

    open spec fn accepts_references(&self, t: TransactionView) -> bool {
        true
    }

    open spec fn transaction_error(&self, t: TransactionView, e: LedgerError) -> bool {
        e is InvalidTransaction || e is Validation
    }

    open spec fn reference_error(&self, t: TransactionView, e: LedgerError) -> bool {
        false
    }

    fn validate_transaction(&self, transaction: &Transaction) -> (r: LedgerResult<()>) {
        transaction.validate()?;
        validate_transaction_description(transaction.description.as_str())?;
        let es = &transaction.entries;
        let mut i: usize = 0;
        while i < es.len()
            invariant
                i <= es.len(),
                es@ == transaction@.entries,
                forall|j: int| 0 <= j < i ==> valid_account_id(#[trigger] es@[j].account_id@),
            decreases es.len() - i,
        {
            validate_account_id(es[i].account_id.as_str())?;
            validate_positive_amount(&es[i].amount)?;
            i += 1;
        }
        let mut j: usize = 0;
        while j < es.len()
            invariant
                j <= es.len(),
                es@ == transaction@.entries,
                forall|a: int, b: int|
                    0 <= a < b < j ==> !(#[trigger] es@[a].account_id@ == #[trigger] es@[b].account_id@
                        && es@[a].entry_type == es@[b].entry_type),
            decreases es.len() - j,
        {
            let mut k: usize = 0;
            while k < j
                invariant
                    j < es.len(),
                    es@ == transaction@.entries,
                    k <= j,
                    forall|a: int, b: int|
                        0 <= a < b < j ==> !(#[trigger] es@[a].account_id@
                            == #[trigger] es@[b].account_id@ && es@[a].entry_type
                            == es@[b].entry_type),
                    forall|a: int|
                        0 <= a < k ==> !(#[trigger] es@[a].account_id@ == es@[j as int].account_id@
                            && es@[a].entry_type == es@[j as int].entry_type),
                decreases j - k,
            {
                if es[k].account_id == es[j].account_id && es[k].entry_type == es[j].entry_type {
                    proof {
                        assert(es@[k as int].account_id@ == es@[j as int].account_id@);
                        assert(!sides_distinct(es@));
                    }
                    return Err(
                        LedgerError::Validation(
                            "Account appears multiple times with the same entry type in transaction".to_string(),
                        ),
                    );
                }
                k += 1;
            }
            j += 1;
        }
        Ok(())
    }

    fn validate_account_references(&self, transaction: &Transaction) -> (r: LedgerResult<()>) {
        Ok(())
    }
}

/// Account validator that checks the id and name rules.
pub struct EnhancedAccountValidator;

impl AccountValidator for EnhancedAccountValidator {
    open spec fn accepts_account(&self, a: AccountView) -> bool {
        valid_account_id(a.id) && valid_account_name(a.name)
    }

    open spec fn allows_deletion(&self, account_id: Seq<char>) -> bool {
        true
    }

    fn validate_account(&self, account: &Account) -> (r: LedgerResult<()>) {
        validate_account_id(account.id.as_str())?;
        validate_account_name(account.name.as_str())?;
        Ok(())
    }

    fn validate_account_deletion(&self, account_id: &str) -> (r: LedgerResult<()>) {
        Ok(())
    }
}

} // verus!
