//! The storage tables of the ledger.
//!
//! Balances and allowances live in `ink_storage::collections::HashMap`, keyed
//! by `ink_env::AccountId`. Verus does not look inside that collection: what a
//! table holds is given a name here, and every call into the collection goes
//! through a function of this module whose contract is taken on trust from
//! the collection's source. Nothing else in the crate is unproved.
//!
//! A table is only ever made by `HashMap::new`, so it has no storage key and
//! reads nothing from the host: it holds exactly what was inserted into it.

use vstd::prelude::*;
use crate::account::AccountId;

verus! {

/// The table of balances: an `ink_storage::collections::HashMap` from
/// account to amount. Verus does not look into it; [`balance_entries`] names
/// what it holds.
#[verifier::external_body]
pub struct BalanceTable {
    inner: ink_storage::collections::HashMap<ink_env::AccountId, u128>,
}

/// The table of allowances: an `ink_storage::collections::HashMap` from
/// (owner, spender) to amount. Verus does not look into it;
/// [`allowance_entries`] names what it holds.
#[verifier::external_body]
pub struct AllowanceTable {
    inner: ink_storage::collections::HashMap<(ink_env::AccountId, ink_env::AccountId), u128>,
}

/// What a balance table holds: for each account on it, by the account's
/// bytes, the amount stored.
pub uninterp spec fn balance_entries(table: BalanceTable) -> Map<Seq<u8>, u128>;

/// What an allowance table holds: for each (owner, spender) pair on it, by
/// the two accounts' bytes, the amount stored.
pub uninterp spec fn allowance_entries(table: AllowanceTable) -> Map<(Seq<u8>, Seq<u8>), u128>;

/// Calls `HashMap::new`. Trusted: the new table holds no entry.
#[verifier::external_body]
pub(crate) fn balances_new() -> (table: BalanceTable)
    ensures
        balance_entries(table).dom() == Set::<Seq<u8>>::empty(),
{
    BalanceTable { inner: ink_storage::collections::HashMap::new() }
}

/// Calls `HashMap::len`. Trusted: it returns the number of accounts on the
/// table.
#[verifier::external_body]
pub(crate) fn balances_len(table: &BalanceTable) -> (count: u32)
    ensures
        count == balance_entries(*table).dom().len(),
{
    table.inner.len()
}

/// Calls `HashMap::get`. Trusted: it returns the amount stored for the
/// account, and `None` exactly when the account is not on the table. Keys are
/// compared by their bytes.
#[verifier::external_body]
pub(crate) fn balances_get(table: &BalanceTable, account: &AccountId) -> (found: Option<u128>)
    ensures
        found.is_some() == balance_entries(*table).contains_key(account@),
        found.is_some() ==> found.unwrap() == balance_entries(*table)[account@],
{
    table.inner.get(&ink_env::AccountId::from(account.bytes)).copied()
}

/// Calls `HashMap::insert`. Trusted: afterwards the table maps the account to
/// `amount` and is otherwise unchanged; the result is the amount that was
/// stored before, if any. The collection counts its keys in a `u32`, so the
/// table must not outgrow that count.
#[verifier::external_body]
pub(crate) fn balances_insert(table: &mut BalanceTable, account: &AccountId, amount: u128) -> (previous: Option<u128>)
    requires
        balance_entries(*old(table)).dom().finite(),
        balance_entries(*old(table)).dom().insert(account@).len() <= u32::MAX,
    ensures
        balance_entries(*final(table)) == balance_entries(*old(table)).insert(account@, amount),
        previous.is_some() == balance_entries(*old(table)).contains_key(account@),
        previous.is_some() ==> previous.unwrap() == balance_entries(*old(table))[account@],
{
    table.inner.insert(ink_env::AccountId::from(account.bytes), amount)
}

/// Calls `HashMap::new`. Trusted: the new table holds no entry.
#[verifier::external_body]
pub(crate) fn allowances_new() -> (table: AllowanceTable)
    ensures
        allowance_entries(table).dom() == Set::<(Seq<u8>, Seq<u8>)>::empty(),
{
    AllowanceTable { inner: ink_storage::collections::HashMap::new() }
}

/// Calls `HashMap::len`. Trusted: it returns the number of pairs on the
/// table.
#[verifier::external_body]
pub(crate) fn allowances_len(table: &AllowanceTable) -> (count: u32)
    ensures
        count == allowance_entries(*table).dom().len(),
{
    table.inner.len()
}

/// Calls `HashMap::get`. Trusted: it returns the amount stored for the pair,
/// and `None` exactly when the pair is not on the table. Keys are compared by
/// their bytes.
#[verifier::external_body]
pub(crate) fn allowances_get(table: &AllowanceTable, owner: &AccountId, spender: &AccountId) -> (found: Option<u128>)
    ensures
        found.is_some() == allowance_entries(*table).contains_key((owner@, spender@)),
        found.is_some() ==> found.unwrap() == allowance_entries(*table)[(owner@, spender@)],
{
    let key = (ink_env::AccountId::from(owner.bytes), ink_env::AccountId::from(spender.bytes));
    table.inner.get(&key).copied()
}

/// Calls `HashMap::insert`. Trusted: afterwards the table maps the pair to
/// `amount` and is otherwise unchanged; the result is the amount that was
/// stored before, if any. The collection counts its keys in a `u32`, so the
/// table must not outgrow that count.
#[verifier::external_body]
pub(crate) fn allowances_insert(table: &mut AllowanceTable, owner: &AccountId, spender: &AccountId, amount: u128) -> (previous: Option<u128>)
    requires
        allowance_entries(*old(table)).dom().finite(),
        allowance_entries(*old(table)).dom().insert((owner@, spender@)).len() <= u32::MAX,
    ensures
        allowance_entries(*final(table)) == allowance_entries(*old(table)).insert((owner@, spender@), amount),
        previous.is_some() == allowance_entries(*old(table)).contains_key((owner@, spender@)),
        previous.is_some() ==> previous.unwrap() == allowance_entries(*old(table))[(owner@, spender@)],
{
    let key = (ink_env::AccountId::from(owner.bytes), ink_env::AccountId::from(spender.bytes));
    table.inner.insert(key, amount)
}

} // verus!
