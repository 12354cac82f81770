//! The ledger: a fixed supply, the balance of each account, and what each
//! owner allows each spender to move.
//!
//! The caller of an operation is an explicit argument. Notifications are
//! collected in the ledger, oldest first, until they are taken out.

use vstd::prelude::*;
use crate::account::AccountId;
use crate::event::{Approval, Notification, Transfer};
use crate::state::{
    lemma_balance_le_supply, lemma_debit, lemma_genesis_valid, lemma_room_for_writes,
    LedgerState,
};
use crate::table::{
    allowance_entries, allowances_get, allowances_insert, allowances_len, allowances_new,
    balance_entries, balances_get, balances_insert, balances_len, balances_new, AllowanceTable,
    BalanceTable,
};

verus! {

/// A token ledger.
pub struct Erc20 {
    /// The total supply.
    total_supply: u128,
    /// The balance of each user.
    balances: BalanceTable,
    /// What each spender may move on behalf of each owner.
    allowances: AllowanceTable,
    /// The notifications that have not been taken out yet.
    notifications: Vec<Notification>,
}

impl View for Erc20 {
    type V = LedgerState;

    closed spec fn view(&self) -> LedgerState {
        LedgerState {
            total_supply: self.total_supply,
            balances: balance_entries(self.balances),
            allowances: allowance_entries(self.allowances),
            emitted: self.notifications@,
        }
    }
}

impl Erc20 {
    /// Creates the ledger: `caller` receives the whole `initial_supply`, and
    /// the mint is notified.
    pub fn new(initial_supply: u128, caller: AccountId) -> (ledger: Erc20)
        ensures
            ledger@ == LedgerState::genesis(initial_supply, caller),
            ledger@.valid(),
    {
        let mut balances = balances_new();
        let ghost empty = balance_entries(balances);
        assert(empty =~= Map::empty());
        balances_insert(&mut balances, &caller, initial_supply);
        let allowances = allowances_new();
        assert(allowance_entries(allowances) =~= Map::empty());
        let mut notifications = Vec::new();
        notifications.push(
            Notification::Transfer(
                Transfer { from: None, to: Some(caller), value: initial_supply },
            ),
        );
        proof {
            lemma_genesis_valid(initial_supply, caller);
            assert(notifications@ =~= LedgerState::genesis(initial_supply, caller).emitted);
        }
        Erc20 { total_supply: initial_supply, balances, allowances, notifications }
    }

    /// The total supply, which never changes.
    pub fn total_supply(&self) -> (supply: u128)
        ensures
            supply == self@.total_supply,
    {
        self.total_supply
    }

    /// The balance of `owner`; zero for an account that the ledger has never
    /// seen. It never exceeds the total supply.
    pub fn balance_of(&self, owner: AccountId) -> (balance: u128)
        ensures
            balance == self@.balance_of(owner@),
            self@.valid() ==> balance <= self@.total_supply,
    {
        proof {
            if self@.valid() {
                lemma_balance_le_supply(self@, owner@);
            }
        }
        self.balance_of_or_zero(&owner)
    }

    /// What `spender` may still move out of `owner`'s balance; zero where
    /// nothing was approved.
    pub fn allowance(&self, owner: AccountId, spender: AccountId) -> (allowed: u128)
        ensures
            allowed == self@.allowance(owner@, spender@),
    {
        self.allowance_of_or_zero(&owner, &spender)
    }

    /// `caller` allows `spender` to move up to `value` on their behalf. The
    /// amount replaces whatever was approved before. Always succeeds, and
    /// notifies the approval.
    pub fn approve(&mut self, caller: AccountId, spender: AccountId, value: u128) -> (ok: bool)
        requires
            old(self)@.valid(),
            old(self)@.room_for_approval(caller@, spender@),
        ensures
            ok,
            final(self)@ == old(self)@.approved(caller, spender, value),
            final(self)@.valid(),
    {
        allowances_insert(&mut self.allowances, &caller, &spender, value);
        self.notifications.push(
            Notification::Approval(
                Approval { owner: Some(caller), spender: Some(spender), value },
            ),
        );
        true
    }

    /// `caller` moves `value` out of `from`'s balance to `to`, within what
    /// `from` allows them. Refused, with nothing changed, where the allowance
    /// or the balance of `from` is below `value`; else the tokens move and
    /// the allowance drops by `value`.
    pub fn transfer_from(&mut self, caller: AccountId, from: AccountId, to: AccountId, value: u128) -> (ok: bool)
        requires
            old(self)@.valid(),
            old(self)@.room_for_transfer(from@, to@),
            old(self)@.room_for_approval(from@, caller@),
        ensures
            ok == old(self)@.can_spend(caller@, from@, value),
            final(self)@ == old(self)@.spent(caller@, from@, to@, value),
            final(self)@.valid(),
    {
        let allow = self.allowance_of_or_zero(&from, &caller);
        if allow < value {
            return false;
        }
        let transfer = self.transfer_from_to(from, to, value);
        if !transfer {
            return false;
        }
        allowances_insert(&mut self.allowances, &from, &caller, allow - value);
        true
    }

    /// `caller` moves `value` of their own tokens to `to`. Refused, with
    /// nothing changed, where their balance is below `value`.
    pub fn transfer(&mut self, caller: AccountId, to: AccountId, value: u128) -> (ok: bool)
        requires
            old(self)@.valid(),
            old(self)@.room_for_transfer(caller@, to@),
        ensures
            ok == old(self)@.can_pay(caller@, value),
            final(self)@ == old(self)@.moved(caller@, to@, value),
            final(self)@.valid(),
    {
        self.transfer_from_to(caller, to, value)
    }

    /// Whether the allowance table can take an entry for (`owner`,
    /// `spender`), as [`Erc20::approve`] requires.
    pub fn has_room_for_approval(&self, owner: &AccountId, spender: &AccountId) -> (room: bool)
        requires
            self@.valid(),
        ensures
            room == self@.room_for_approval(owner@, spender@),
    {
        let count = allowances_len(&self.allowances);
        let known = allowances_get(&self.allowances, owner, spender).is_some();
        known || count < u32::MAX
    }

    /// Whether the balance table can take entries for `from` and `to`, as
    /// [`Erc20::transfer`] requires.
    pub fn has_room_for_transfer(&self, from: &AccountId, to: &AccountId) -> (room: bool)
        requires
            self@.valid(),
        ensures
            room == self@.room_for_transfer(from@, to@),
    {
        let count = balances_len(&self.balances);
        let from_known = balances_get(&self.balances, from).is_some();
        let to_known = from.same_as(to) || balances_get(&self.balances, to).is_some();
        let ghost with_from = self@.balances.dom().insert(from@);
        assert(with_from.len() == count + (if from_known { 0int } else { 1int }));
        assert(with_from.contains(to@) == to_known);
        if from_known && to_known {
            true
        } else if from_known || to_known {
            count < u32::MAX
        } else {
            count < u32::MAX - 1
        }
    }

    /// As [`Erc20::approve`], but for every ledger: where the allowance
    /// table has no room for the pair, nothing is done and the result is
    /// `None`.
    pub fn try_approve(&mut self, caller: AccountId, spender: AccountId, value: u128) -> (outcome: Option<bool>)
        requires
            old(self)@.valid(),
        ensures
            outcome.is_some() == old(self)@.room_for_approval(caller@, spender@),
            outcome.is_some() ==> outcome == Some(true),
            outcome.is_some() ==> final(self)@ == old(self)@.approved(caller, spender, value),
            outcome.is_none() ==> final(self)@ == old(self)@,
            final(self)@.valid(),
    {
        if !self.has_room_for_approval(&caller, &spender) {
            return None;
        }
        Some(self.approve(caller, spender, value))
    }

    /// As [`Erc20::transfer`], but for every ledger: where the balance table
    /// has no room for the two accounts, nothing is done and the result is
    /// `None`.
    pub fn try_transfer(&mut self, caller: AccountId, to: AccountId, value: u128) -> (outcome: Option<bool>)
        requires
            old(self)@.valid(),
        ensures
            outcome.is_some() == old(self)@.room_for_transfer(caller@, to@),
            outcome.is_some() ==> outcome == Some(old(self)@.can_pay(caller@, value)),
            outcome.is_some() ==> final(self)@ == old(self)@.moved(caller@, to@, value),
            outcome.is_none() ==> final(self)@ == old(self)@,
            final(self)@.valid(),
    {
        if !self.has_room_for_transfer(&caller, &to) {
            return None;
        }
        Some(self.transfer(caller, to, value))
    }

    /// As [`Erc20::transfer_from`], but for every ledger: where the balance
    /// table has no room for `from` and `to`, or the allowance table none for
    /// (`from`, `caller`), nothing is done and the result is `None`.
    pub fn try_transfer_from(&mut self, caller: AccountId, from: AccountId, to: AccountId, value: u128) -> (outcome: Option<bool>)
        requires
            old(self)@.valid(),
        ensures
            outcome.is_some() == (old(self)@.room_for_transfer(from@, to@) && old(self)@.room_for_approval(from@, caller@)),
            outcome.is_some() ==> outcome == Some(old(self)@.can_spend(caller@, from@, value)),
            outcome.is_some() ==> final(self)@ == old(self)@.spent(caller@, from@, to@, value),
            outcome.is_none() ==> final(self)@ == old(self)@,
            final(self)@.valid(),
    {
        if !self.has_room_for_transfer(&from, &to) {
            return None;
        }
        if !self.has_room_for_approval(&from, &caller) {
            return None;
        }
        Some(self.transfer_from(caller, from, to, value))
    }

    /// The number of accounts on the balance table.
    pub fn account_count(&self) -> (count: u32)
        ensures
            count == self@.balances.dom().len(),
    {
        balances_len(&self.balances)
    }

    /// The number of (owner, spender) pairs on the allowance table.
    pub fn approval_count(&self) -> (count: u32)
        ensures
            count == self@.allowances.dom().len(),
    {
        allowances_len(&self.allowances)
    }

    /// The notifications that have not been taken out yet, oldest first.
    pub fn notifications(&self) -> (pending: &Vec<Notification>)
        ensures
            pending@ == self@.emitted,
    {
        &self.notifications
    }

    /// Takes the pending notifications out of the ledger, oldest first, for
    /// delivery to observers. Balances, allowances and supply stay as they
    /// are.
    pub fn take_notifications(&mut self) -> (taken: Vec<Notification>)
        ensures
            taken@ == old(self)@.emitted,
            final(self)@ == (LedgerState { emitted: Seq::empty(), ..old(self)@ }),
    {
        let mut taken: Vec<Notification> = Vec::new();
        core::mem::swap(&mut self.notifications, &mut taken);
        assert(self.notifications@ =~= Seq::empty());
        taken
    }

    fn balance_of_or_zero(&self, owner: &AccountId) -> (balance: u128)
        ensures
            balance == self@.balance_of(owner@),
    {
        match balances_get(&self.balances, owner) {
            Some(balance) => balance,
            None => 0,
        }
    }

    fn allowance_of_or_zero(&self, owner: &AccountId, spender: &AccountId) -> (allowed: u128)
        ensures
            allowed == self@.allowance(owner@, spender@),
    {
        match allowances_get(&self.allowances, owner, spender) {
            Some(allowed) => allowed,
            None => 0,
        }
    }

    /// Moves `value` from `from` to `to` where `from` holds enough: `from` is
    /// debited first, then `to` is credited with what it holds after that,
    /// so a transfer to oneself changes nothing.
    fn transfer_from_to(&mut self, from: AccountId, to: AccountId, value: u128) -> (ok: bool)
        requires
            old(self)@.valid(),
            old(self)@.room_for_transfer(from@, to@),
        ensures
            ok == old(self)@.can_pay(from@, value),
            final(self)@ == old(self)@.moved(from@, to@, value),
            final(self)@.valid(),
    {
        let balance_from = self.balance_of_or_zero(&from);
        if balance_from < value {
            return false;
        }
        proof {
            lemma_debit(self@, from@, to@, value);
            lemma_room_for_writes(self@, from@, to@, value);
        }
        balances_insert(&mut self.balances, &from, balance_from - value);
        let balance_to = self.balance_of_or_zero(&to);
        balances_insert(&mut self.balances, &to, balance_to + value);
        true
    }
}

} // verus!
