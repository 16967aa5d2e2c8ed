//! Plain-value models of the accounts an operation reads and changes.
//!
//! The execution environment hands each operation a consistent snapshot of
//! the accounts it names. These structs hold exactly the fields the logic
//! reads, as plain values; unverified glue fills them from the environment's
//! own account types and carries the effects back.

use vstd::prelude::*;
use crate::addr::Address;
use crate::state::State;

verus! {

/// A token-ledger account, as the logic sees it.
#[derive(Clone, Copy)]
pub struct TokenAccountInfo {
    /// The account's own address.
    pub key: Address,
    /// The token type the account holds.
    pub mint: Address,
    /// The owner-authority entitled to spend from the account.
    pub owner: Address,
    /// Current balance, in token base units.
    pub amount: u64,
    /// A third party granted a capped spending right, if any.
    pub delegate: Option<Address>,
    /// The remaining delegated allowance.
    pub delegated_amount: u64,
    /// An authority entitled to close the account, if any.
    pub close_authority: Option<Address>,
    /// The storage deposit backing the account.
    pub lamports: u64,
}

/// The storage slot that holds (or will hold) the State Record.
#[derive(Clone, Copy)]
pub struct StateSlot {
    /// The slot's own address: the record's identity, and the seed of the
    /// reserve authority's derivation.
    pub key: Address,
    /// The record, once provisioned; `None` for a zero-initialized slot and
    /// after decommission.
    pub data: Option<State>,
    /// The storage deposit backing the slot.
    pub lamports: u64,
}

/// An ordinary system-owned account, used to reclaim storage deposits.
#[derive(Clone, Copy)]
pub struct SystemAccountInfo {
    /// The account's own address.
    pub key: Address,
    /// The program that owns the account.
    pub owner: Address,
    /// Current balance.
    pub lamports: u64,
}

} // verus!
