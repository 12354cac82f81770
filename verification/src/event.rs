//! The notifications that the ledger produces for outside observers.

use vstd::prelude::*;
use crate::account::AccountId;

verus! {

/// Tokens were credited to `to`. An absent `from` marks newly minted tokens.
#[derive(Clone, Copy, Debug, PartialEq, Eq)]
pub struct Transfer {
    pub from: Option<AccountId>,
    pub to: Option<AccountId>,
    pub value: u128,
}

/// `owner` set the amount that `spender` may move on their behalf.
#[derive(Clone, Copy, Debug, PartialEq, Eq)]
pub struct Approval {
    pub owner: Option<AccountId>,
    pub spender: Option<AccountId>,
    pub value: u128,
}

/// One notification, of either kind.
#[derive(Clone, Copy, Debug, PartialEq, Eq)]
pub enum Notification {
    Transfer(Transfer),
    Approval(Approval),
}

} // verus!
