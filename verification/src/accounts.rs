//! The accounts that the runtime hands to an instruction, as plain values.
//!
//! The runtime loads every account that an instruction names, locks it for
//! the length of the call, and persists what the instruction hands back. An
//! instruction therefore works on a local copy and never on shared state.

use crate::address::Address;
use vstd::prelude::*;

verus! {

/// An identity that takes part in a call.
#[derive(Clone, Copy, Debug, PartialEq, Eq)]
pub struct Signer {
    /// The public identifier of the identity.
    pub key: Address,
    /// Whether the identity has authorized this call.
    pub is_signer: bool,
    /// Whether the call may change the identity's account.
    pub is_writable: bool,
    /// The native balance that the identity has available.
    pub lamports: u64,
}

/// An account that is supplied as a program of the ledger.
#[derive(Clone, Copy, Debug, PartialEq, Eq)]
pub struct Program {
    /// The address of the account.
    pub key: Address,
    /// Whether the runtime can execute the account.
    pub executable: bool,
}

/// The account at an address that holds, or may come to hold, a record.
#[derive(Clone, Debug, PartialEq, Eq)]
pub struct Account<T> {
    /// The address of the account.
    pub key: Address,
    /// Whether the call may change the account.
    pub is_writable: bool,
    /// The native balance of the account: what was reserved for its storage
    /// and whatever else it was given.
    pub lamports: u64,
    /// The record at the address; `None` where there is none.
    pub data: Option<T>,
}

} // verus!
