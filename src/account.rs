//! The account registry: creating, reading, updating and deleting accounts
//! under an account validator.

use vstd::prelude::*;

use crate::calendar::Date;
use crate::decimal::Decimal;
use crate::storage::{
    account_option_view, account_views, accounts_of_type, find_account, has_account, reported_balance, upsert_account, LedgerStorage, StorageView,
};
use crate::traits::{AccountValidator, DefaultAccountValidator};
use crate::types::{
    new_account_view, text_option, Account, AccountType, AccountView, LedgerError, LedgerResult,
};

verus! {

/// What creating account `a` does: it succeeds exactly when the validator
/// accepts it, its id is new and its parent, if any, is stored; then it is
/// added, else nothing changes.
pub open spec fn create_outcome<A: AccountValidator>(
    v: A,
    before: StorageView,
    after: StorageView,
    a: AccountView,
    reliable: bool,
    ok: bool,
) -> bool {
    let allowed = v.accepts_account(a) && !has_account(before.accounts, a.id) && (a.parent_id is None
        || has_account(before.accounts, a.parent_id.unwrap()));
    &&& ok ==> allowed && after.accounts == before.accounts.push(a) && after.transactions
        == before.transactions
    &&& !ok ==> after == before
    &&& reliable ==> ok == allowed
}

/// What replacing the stored account of id `a.id` by `a` does.
pub open spec fn account_update_outcome<A: AccountValidator>(
    v: A,
    before: StorageView,
    after: StorageView,
    a: AccountView,
    reliable: bool,
    ok: bool,
) -> bool {
    let allowed = v.accepts_account(a) && has_account(before.accounts, a.id);
    &&& ok ==> allowed && after.accounts == upsert_account(before.accounts, a)
        && after.transactions == before.transactions
    &&& !ok ==> after == before
    &&& reliable ==> ok == allowed
}

/// What deleting the account `id` does.
pub open spec fn account_delete_outcome<A: AccountValidator>(
    v: A,
    before: StorageView,
    after: StorageView,
    id: Seq<char>,
    reliable: bool,
    ok: bool,
) -> bool {
    let allowed = v.allows_deletion(id) && has_account(before.accounts, id);
    &&& ok ==> allowed && after.accounts == before.accounts.remove(
        crate::storage::account_pos(before.accounts, id),
    ) && after.transactions == before.transactions
    &&& !ok ==> after == before
    &&& reliable ==> ok == allowed
}

pub fn create_account_in<S: LedgerStorage, A: AccountValidator>(
    storage: &mut S,
    validator: &A,
    id: String,
    name: String,
    account_type: AccountType,
    parent_id: Option<String>,
) -> (r: LedgerResult<Account>)
    ensures
        final(storage).never_fails() == old(storage).never_fails(),
        create_outcome(
            *validator,
            old(storage).contents(),
            final(storage).contents(),
            new_account_view(id@, name@, account_type, text_option(parent_id)),
            old(storage).never_fails(),
            r is Ok,
        ),
        old(storage).never_fails() && validator.accepts_account(
            new_account_view(id@, name@, account_type, text_option(parent_id)),
        ) && r is Err ==> r->Err_0 is Validation,
        r is Ok ==> r->Ok_0@ == new_account_view(id@, name@, account_type, text_option(parent_id)),
{
    let account = Account::new(id, name, account_type, parent_id);
    validator.validate_account(&account)?;
    if storage.get_account(account.id.as_str())?.is_some() {
        return Err(LedgerError::Validation("Account with this ID already exists".to_string()));
    }
    match &account.parent_id {
        Some(p) => {
            if storage.get_account(p.as_str())?.is_none() {
                return Err(LedgerError::Validation("Parent account does not exist".to_string()));
            }
        },
        None => {},
    }
    storage.save_account(&account)?;
    Ok(account)
}

pub fn update_account_in<S: LedgerStorage, A: AccountValidator>(
    storage: &mut S,
    validator: &A,
    account: &Account,
) -> (r: LedgerResult<()>)
    ensures
        final(storage).never_fails() == old(storage).never_fails(),
        account_update_outcome(
            *validator,
            old(storage).contents(),
            final(storage).contents(),
            account@,
            old(storage).never_fails(),
            r is Ok,
        ),
        old(storage).never_fails() && validator.accepts_account(account@) && !has_account(
            old(storage).contents().accounts,
            account@.id,
        ) ==> r is Err && r->Err_0 is AccountNotFound,
{
    validator.validate_account(account)?;
    if storage.get_account(account.id.as_str())?.is_none() {
        return Err(LedgerError::AccountNotFound(account.id.clone()));
    }
    storage.update_account(account)
}

pub fn delete_account_in<S: LedgerStorage, A: AccountValidator>(
    storage: &mut S,
    validator: &A,
    account_id: &str,
) -> (r: LedgerResult<()>)
    ensures
        final(storage).never_fails() == old(storage).never_fails(),
        account_delete_outcome(
            *validator,
            old(storage).contents(),
            final(storage).contents(),
            account_id@,
            old(storage).never_fails(),
            r is Ok,
        ),
        old(storage).never_fails() && validator.allows_deletion(account_id@) && !has_account(
            old(storage).contents().accounts,
            account_id@,
        ) ==> r is Err && r->Err_0 is AccountNotFound,
{
    validator.validate_account_deletion(account_id)?;
    if storage.get_account(account_id)?.is_none() {
        return Err(LedgerError::AccountNotFound(account_id.to_owned()));
    }
    storage.delete_account(account_id)
}

/// The account registry over a store.
pub struct AccountManager<S, A> {
    pub storage: S,
    pub validator: A,
}

impl<S: LedgerStorage> AccountManager<S, DefaultAccountValidator> {
    /// A registry with the permissive default validator.
    pub fn new(storage: S) -> (r: AccountManager<S, DefaultAccountValidator>)
        ensures
            r.storage == storage,
    {
        AccountManager { storage, validator: DefaultAccountValidator }
    }
}

impl<S: LedgerStorage, A: AccountValidator> AccountManager<S, A> {
    pub fn with_validator(storage: S, validator: A) -> (r: AccountManager<S, A>)
        ensures
            r.storage == storage,
            r.validator == validator,
    {
        AccountManager { storage, validator }
    }

    /// Creates an account with a zero balance.
    pub fn create_account(
        &mut self,
        id: String,
        name: String,
        account_type: AccountType,
        parent_id: Option<String>,
    ) -> (r: LedgerResult<Account>)
        ensures
            final(self).storage.never_fails() == old(self).storage.never_fails(),
            final(self).validator == old(self).validator,
            create_outcome(
                old(self).validator,
                old(self).storage.contents(),
                final(self).storage.contents(),
                new_account_view(id@, name@, account_type, text_option(parent_id)),
                old(self).storage.never_fails(),
                r is Ok,
            ),
            old(self).storage.never_fails() && old(self).validator.accepts_account(
                new_account_view(id@, name@, account_type, text_option(parent_id)),
            ) && r is Err ==> r->Err_0 is Validation,
            r is Ok ==> r->Ok_0@ == new_account_view(id@, name@, account_type, text_option(parent_id)),
    {
        create_account_in(&mut self.storage, &self.validator, id, name, account_type, parent_id)
    }

    pub fn get_account(&self, account_id: &str) -> (r: LedgerResult<Option<Account>>)
        ensures
            r is Ok ==> account_option_view(r->Ok_0) == find_account(
                self.storage.contents().accounts,
                account_id@,
            ),
            self.storage.never_fails() ==> r is Ok,
    {
        self.storage.get_account(account_id)
    }

    /// The account `account_id`, or `AccountNotFound`.
    pub fn get_account_required(&self, account_id: &str) -> (r: LedgerResult<Account>)
        ensures
            r is Ok ==> Some(r->Ok_0@) == find_account(self.storage.contents().accounts, account_id@),
            !has_account(self.storage.contents().accounts, account_id@) ==> r is Err,
            self.storage.never_fails() ==> (r is Ok == has_account(
                self.storage.contents().accounts,
                account_id@,
            )),
            self.storage.never_fails() && r is Err ==> r->Err_0 is AccountNotFound
                && r->Err_0->AccountNotFound_0@ == account_id@,
    {
        match self.storage.get_account(account_id)? {
            Some(a) => Ok(a),
            None => Err(LedgerError::AccountNotFound(account_id.to_owned())),
        }
    }

    pub fn list_accounts(&self) -> (r: LedgerResult<Vec<Account>>)
        ensures
            r is Ok ==> account_views(r->Ok_0@) == accounts_of_type(
                self.storage.contents().accounts,
                None,
            ),
            self.storage.never_fails() ==> r is Ok,
    {
        self.storage.list_accounts(None)
    }

    pub fn list_accounts_by_type(&self, account_type: AccountType) -> (r: LedgerResult<Vec<Account>>)
        ensures
            r is Ok ==> account_views(r->Ok_0@) == accounts_of_type(
                self.storage.contents().accounts,
                Some(account_type),
            ),
            self.storage.never_fails() ==> r is Ok,
    {
        self.storage.list_accounts(Some(account_type))
    }

    pub fn update_account(&mut self, account: &Account) -> (r: LedgerResult<()>)
        ensures
            final(self).storage.never_fails() == old(self).storage.never_fails(),
            final(self).validator == old(self).validator,
            account_update_outcome(
                old(self).validator,
                old(self).storage.contents(),
                final(self).storage.contents(),
                account@,
                old(self).storage.never_fails(),
                r is Ok,
            ),
    {
        update_account_in(&mut self.storage, &self.validator, account)
    }

    pub fn delete_account(&mut self, account_id: &str) -> (r: LedgerResult<()>)
        ensures
            final(self).storage.never_fails() == old(self).storage.never_fails(),
            final(self).validator == old(self).validator,
            account_delete_outcome(
                old(self).validator,
                old(self).storage.contents(),
                final(self).storage.contents(),
                account_id@,
                old(self).storage.never_fails(),
                r is Ok,
            ),
    {
        delete_account_in(&mut self.storage, &self.validator, account_id)
    }

    /// The running balance, or the replayed balance as of a date.
    pub fn get_balance(&self, account_id: &str, as_of_date: Option<Date>) -> (r: LedgerResult<Decimal>)
        ensures
            r is Ok ==> Some(r->Ok_0@) == reported_balance(
                self.storage.contents(),
                account_id@,
                as_of_date,
            ),
            !has_account(self.storage.contents().accounts, account_id@) ==> r is Err
                && r->Err_0 is AccountNotFound && r->Err_0->AccountNotFound_0@ == account_id@,
            self.storage.never_fails() ==> (r is Ok == reported_balance(
                self.storage.contents(),
                account_id@,
                as_of_date,
            ) is Some),
    {
        self.storage.get_account_balance(account_id, as_of_date)
    }
}

} // verus!
