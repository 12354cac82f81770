//! A fungible-token ledger: one fixed supply, a balance per account, and an
//! allowance per (owner, spender) pair, with verified bookkeeping.
//!
//! [`ledger::Erc20`] is the ledger itself. [`state::LedgerState`] is its
//! mathematical model, over which every contract is stated, together with
//! the laws that hold of it. [`table`] holds the storage tables and the only
//! unproved contracts of the crate.

pub mod account;
pub mod event;
pub mod ledger;
pub mod state;
pub mod supply;
pub mod table;

pub use account::AccountId;
pub use event::{Approval, Notification, Transfer};
pub use ledger::Erc20;
pub use state::LedgerState;
