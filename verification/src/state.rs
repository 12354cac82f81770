//! The mathematical model of the ledger, and the laws that hold of it.
//!
//! Accounts are modelled by their bytes. A table that lacks a key stands for
//! the amount zero.

use vstd::prelude::*;
use vstd::set_lib::lemma_len_subset;
use crate::account::AccountId;
use crate::event::{Approval, Notification, Transfer};
use crate::supply::{
    lemma_entry_le_total, lemma_remove_absent, lemma_total_empty, lemma_total_insert,
    lemma_total_remove, total,
};

verus! {

/// The state of a ledger as a mathematical value.
pub struct LedgerState {
    /// The supply that was minted at construction.
    pub total_supply: u128,
    /// The stored balances, by account.
    pub balances: Map<Seq<u8>, u128>,
    /// The stored allowances, by (owner, spender).
    pub allowances: Map<(Seq<u8>, Seq<u8>), u128>,
    /// The notifications produced so far and not yet handed out, oldest first.
    pub emitted: Seq<Notification>,
}

impl LedgerState {
    /// The balance of `account`: what the table stores, or zero.
    pub open spec fn balance_of(self, account: Seq<u8>) -> u128 {
        if self.balances.contains_key(account) {
            self.balances[account]
        } else {
            0u128
        }
    }

    /// What `spender` may still move out of `owner`'s balance: what the table
    /// stores, or zero.
    pub open spec fn allowance(self, owner: Seq<u8>, spender: Seq<u8>) -> u128 {
        if self.allowances.contains_key((owner, spender)) {
            self.allowances[(owner, spender)]
        } else {
            0u128
        }
    }

    /// The invariant of the ledger: both tables are finite, and the balances
    /// add up to the total supply.
    pub open spec fn valid(self) -> bool {
        &&& self.balances.dom().finite()
        &&& self.allowances.dom().finite()
        &&& total(self.balances) == self.total_supply
    }

    /// The balance table can take entries for `from` and `to`: with both on
    /// it, it has at most `u32::MAX` entries.
    pub open spec fn room_for_transfer(self, from: Seq<u8>, to: Seq<u8>) -> bool {
        self.balances.dom().insert(from).insert(to).len() <= u32::MAX
    }

    /// The allowance table can take an entry for (`owner`, `spender`): with
    /// it, the table has at most `u32::MAX` entries.
    pub open spec fn room_for_approval(self, owner: Seq<u8>, spender: Seq<u8>) -> bool {
        self.allowances.dom().insert((owner, spender)).len() <= u32::MAX
    }

    /// The state right after construction: the whole supply belongs to
    /// `creator`, nothing is approved, and the mint has been notified.
    pub open spec fn genesis(initial_supply: u128, creator: AccountId) -> LedgerState {
        LedgerState {
            total_supply: initial_supply,
            balances: Map::empty().insert(creator@, initial_supply),
            allowances: Map::empty(),
            emitted: Seq::empty().push(
                Notification::Transfer(
                    Transfer { from: None, to: Some(creator), value: initial_supply },
                ),
            ),
        }
    }

    /// The state after `owner` approved `spender` for `value`: the allowance
    /// is replaced, and the approval has been notified.
    pub open spec fn approved(self, owner: AccountId, spender: AccountId, value: u128) -> LedgerState {
        LedgerState {
            allowances: self.allowances.insert((owner@, spender@), value),
            emitted: self.emitted.push(
                Notification::Approval(
                    Approval { owner: Some(owner), spender: Some(spender), value },
                ),
            ),
            ..self
        }
    }

    /// A transfer of `value` out of `from` is carried out: `from` holds
    /// enough.
    pub open spec fn can_pay(self, from: Seq<u8>, value: u128) -> bool {
        self.balance_of(from) >= value
    }

    /// The state after `from` has been debited by `value`.
    pub open spec fn debited(self, from: Seq<u8>, value: u128) -> LedgerState {
        LedgerState {
            balances: self.balances.insert(from, (self.balance_of(from) - value) as u128),
            ..self
        }
    }

    /// The state after `to` has been credited with `value`.
    pub open spec fn credited(self, to: Seq<u8>, value: u128) -> LedgerState {
        LedgerState {
            balances: self.balances.insert(to, (self.balance_of(to) + value) as u128),
            ..self
        }
    }

    /// The state after an attempt to move `value` from `from` to `to`:
    /// unchanged where `from` holds too little; else `from` is debited and
    /// then `to` is credited.
    pub open spec fn moved(self, from: Seq<u8>, to: Seq<u8>, value: u128) -> LedgerState {
        if self.can_pay(from, value) {
            self.debited(from, value).credited(to, value)
        } else {
            self
        }
    }

    /// A delegated transfer by `spender` is carried out: the allowance
    /// covers `value`, and `from` holds enough.
    pub open spec fn can_spend(self, spender: Seq<u8>, from: Seq<u8>, value: u128) -> bool {
        self.allowance(from, spender) >= value && self.can_pay(from, value)
    }

    /// The state after an attempt by `spender` to move `value` from `from` to
    /// `to`: unchanged where it is refused; else the tokens are moved and the
    /// allowance is lowered by `value`.
    pub open spec fn spent(self, spender: Seq<u8>, from: Seq<u8>, to: Seq<u8>, value: u128) -> LedgerState {
        if self.can_spend(spender, from, value) {
            LedgerState {
                allowances: self.allowances.insert(
                    (from, spender),
                    (self.allowance(from, spender) - value) as u128,
                ),
                ..self.moved(from, to, value)
            }
        } else {
            self
        }
    }
}

/// One mutating call on the ledger, with its caller.
pub enum Call {
    /// `owner` approves `spender` for `value`.
    Approve { owner: AccountId, spender: AccountId, value: u128 },
    /// `caller` sends `value` of their own tokens to `to`.
    Transfer { caller: AccountId, to: AccountId, value: u128 },
    /// `caller` sends `value` of `from`'s tokens to `to`.
    TransferFrom { caller: AccountId, from: AccountId, to: AccountId, value: u128 },
}

impl LedgerState {
    /// The state after one call, whether it is carried out or refused.
    pub open spec fn step(self, call: Call) -> LedgerState {
        match call {
            Call::Approve { owner, spender, value } => self.approved(owner, spender, value),
            Call::Transfer { caller, to, value } => self.moved(caller@, to@, value),
            Call::TransferFrom { caller, from, to, value } => self.spent(
                caller@,
                from@,
                to@,
                value,
            ),
        }
    }

    /// The state after a sequence of calls, made in order.
    pub open spec fn run(self, calls: Seq<Call>) -> LedgerState
        decreases calls.len(),
    {
        if calls.len() == 0 {
            self
        } else {
            self.run(calls.drop_last()).step(calls.last())
        }
    }
}

/// Conservation: after construction with a supply, and after any sequence of
/// calls whatever, the balances add up to that supply, and the total supply
/// is still the one that was minted.
pub proof fn lemma_supply_conserved(initial_supply: u128, creator: AccountId, calls: Seq<Call>)
    ensures
        LedgerState::genesis(initial_supply, creator).run(calls).valid(),
        LedgerState::genesis(initial_supply, creator).run(calls).total_supply == initial_supply,
        total(LedgerState::genesis(initial_supply, creator).run(calls).balances) == initial_supply,
    decreases calls.len(),
{
    let start = LedgerState::genesis(initial_supply, creator);
    if calls.len() == 0 {
        lemma_genesis_valid(initial_supply, creator);
    } else {
        lemma_supply_conserved(initial_supply, creator, calls.drop_last());
        lemma_step_conserves(start.run(calls.drop_last()), calls.last());
    }
}

/// Conservation: one call, carried out or refused, keeps the ledger valid
/// and its total supply unchanged.
pub proof fn lemma_step_conserves(s: LedgerState, call: Call)
    requires
        s.valid(),
    ensures
        s.step(call).valid(),
        s.step(call).total_supply == s.total_supply,
        total(s.step(call).balances) == total(s.balances),
{
    match call {
        Call::Approve { owner, spender, value } => {
            lemma_approved_overwrites(s, owner, spender, value);
        },
        Call::Transfer { caller, to, value } => {
            lemma_moved_conserves(s, caller@, to@, value);
        },
        Call::TransferFrom { caller, from, to, value } => {
            lemma_spent_conserves(s, caller@, from@, to@, value);
        },
    }
}

/// The state after construction is valid: the minted supply is the sum of the
/// balances.
pub proof fn lemma_genesis_valid(initial_supply: u128, creator: AccountId)
    ensures
        LedgerState::genesis(initial_supply, creator).valid(),
        LedgerState::genesis(initial_supply, creator).balance_of(creator@) == initial_supply,
        forall|other: Seq<u8>| other != creator@ ==> #[trigger] LedgerState::genesis(initial_supply, creator).balance_of(other) == 0,
{
    let empty = Map::<Seq<u8>, u128>::empty();
    lemma_total_insert(empty, creator@, initial_supply);
    lemma_remove_absent(empty, creator@);
    lemma_total_empty(empty);
}

/// Debiting an account that holds enough lowers the sum of the balances by
/// the amount, and leaves every other balance below what remains.
pub proof fn lemma_debit(s: LedgerState, from: Seq<u8>, to: Seq<u8>, value: u128)
    requires
        s.valid(),
        s.can_pay(from, value),
    ensures
        s.debited(from, value).balances.dom().finite(),
        total(s.debited(from, value).balances) + value == s.total_supply,
        s.debited(from, value).balance_of(to) + value <= s.total_supply,
        s.debited(from, value).credited(to, value).valid(),
{
    let m = s.balances;
    let after = s.debited(from, value);
    lemma_total_insert(m, from, (s.balance_of(from) - value) as u128);
    if m.contains_key(from) {
        lemma_total_remove(m, from);
    } else {
        lemma_remove_absent(m, from);
    }
    let m1 = after.balances;
    lemma_total_insert(m1, to, (after.balance_of(to) + value) as u128);
    if m1.contains_key(to) {
        lemma_total_remove(m1, to);
        lemma_entry_le_total(m1, to);
    } else {
        lemma_remove_absent(m1, to);
    }
}

/// Conservation: an attempt to move tokens, carried out or not, keeps the
/// ledger valid, so the balances still add up to the unchanged total supply.
pub proof fn lemma_moved_conserves(s: LedgerState, from: Seq<u8>, to: Seq<u8>, value: u128)
    requires
        s.valid(),
    ensures
        s.moved(from, to, value).valid(),
        s.moved(from, to, value).total_supply == s.total_supply,
        total(s.moved(from, to, value).balances) == total(s.balances),
{
    if s.can_pay(from, value) {
        lemma_debit(s, from, to, value);
    }
}

/// Conservation: a delegated transfer, carried out or not, keeps the ledger
/// valid, so the balances still add up to the unchanged total supply.
pub proof fn lemma_spent_conserves(s: LedgerState, spender: Seq<u8>, from: Seq<u8>, to: Seq<u8>, value: u128)
    requires
        s.valid(),
    ensures
        s.spent(spender, from, to, value).valid(),
        s.spent(spender, from, to, value).total_supply == s.total_supply,
        total(s.spent(spender, from, to, value).balances) == total(s.balances),
{
    lemma_moved_conserves(s, from, to, value);
}

/// An approval touches neither the balances nor the supply, and replaces the
/// allowance: whatever was approved before, the allowance is then `value`.
pub proof fn lemma_approved_overwrites(s: LedgerState, owner: AccountId, spender: AccountId, value: u128)
    requires
        s.valid(),
    ensures
        s.approved(owner, spender, value).valid(),
        s.approved(owner, spender, value).balances == s.balances,
        s.approved(owner, spender, value).total_supply == s.total_supply,
        s.approved(owner, spender, value).allowance(owner@, spender@) == value,
        forall|o: Seq<u8>, p: Seq<u8>| (o, p) != (owner@, spender@) ==>
            #[trigger] s.approved(owner, spender, value).allowance(o, p) == s.allowance(o, p),
{
}

/// What a transfer that is carried out does to the balances: between two
/// accounts it takes `value` from one and gives it to the other; from an
/// account to itself it changes nothing; no third account is touched.
pub proof fn lemma_moved_balances(s: LedgerState, from: Seq<u8>, to: Seq<u8>, value: u128)
    requires
        s.valid(),
        s.can_pay(from, value),
    ensures
        from != to ==> s.moved(from, to, value).balance_of(from) == s.balance_of(from) - value,
        from != to ==> s.moved(from, to, value).balance_of(to) == s.balance_of(to) + value,
        from == to ==> s.moved(from, to, value).balance_of(from) == s.balance_of(from),
        forall|other: Seq<u8>| other != from && other != to ==>
            #[trigger] s.moved(from, to, value).balance_of(other) == s.balance_of(other),
        s.moved(from, to, value).allowances == s.allowances,
        s.moved(from, to, value).emitted == s.emitted,
{
    lemma_debit(s, from, to, value);
}

/// What a delegated transfer that is carried out does to the allowances: the
/// spender's allowance drops by exactly `value`, and no other allowance
/// changes. The balances move as in a plain transfer.
pub proof fn lemma_spent_allowances(s: LedgerState, spender: Seq<u8>, from: Seq<u8>, to: Seq<u8>, value: u128)
    requires
        s.valid(),
        s.can_spend(spender, from, value),
    ensures
        s.spent(spender, from, to, value).allowance(from, spender) == s.allowance(from, spender) - value,
        forall|o: Seq<u8>, p: Seq<u8>| (o, p) != (from, spender) ==>
            #[trigger] s.spent(spender, from, to, value).allowance(o, p) == s.allowance(o, p),
        s.spent(spender, from, to, value).balances == s.moved(from, to, value).balances,
        s.spent(spender, from, to, value).emitted == s.emitted,
{
}

/// A refused transfer or delegated transfer leaves the whole state as it was.
pub proof fn lemma_refused_unchanged(s: LedgerState, spender: Seq<u8>, from: Seq<u8>, to: Seq<u8>, value: u128)
    ensures
        !s.can_pay(from, value) ==> s.moved(from, to, value) == s,
        !s.can_spend(spender, from, value) ==> s.spent(spender, from, to, value) == s,
{
}

/// No balance exceeds the total supply.
pub proof fn lemma_balance_le_supply(s: LedgerState, account: Seq<u8>)
    requires
        s.valid(),
    ensures
        0 <= s.balance_of(account) <= s.total_supply,
{
    if s.balances.contains_key(account) {
        lemma_entry_le_total(s.balances, account);
    }
}

/// Room for a transfer is room for each of its two writes.
pub proof fn lemma_room_for_writes(s: LedgerState, from: Seq<u8>, to: Seq<u8>, value: u128)
    requires
        s.balances.dom().finite(),
        s.room_for_transfer(from, to),
    ensures
        s.balances.dom().insert(from).len() <= u32::MAX,
        s.debited(from, value).balances.dom().insert(to).len() <= u32::MAX,
{
    let both = s.balances.dom().insert(from).insert(to);
    lemma_len_subset(s.balances.dom().insert(from), both);
    assert(s.debited(from, value).balances.dom().insert(to) =~= both);
}

} // verus!
