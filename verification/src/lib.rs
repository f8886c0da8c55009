//! Account-state engine of a ledger program.
//!
//! The engine holds the rules of two small programs, a record keeper and a
//! vault, apart from the runtime that executes them. The runtime loads the
//! accounts that an instruction names and hands them over as plain values;
//! the engine decides, with a machine-checked contract on every decision,
//! and hands back the values to persist.
//!
//! - `address`: addresses and their deterministic derivation.
//! - `accounts`: the accounts of a call as plain values.
//! - `constraints`: the relationships an instruction requires of its
//!   accounts, evaluated before anything is changed.
//! - `blog`: containers and their numbered child records.
//! - `vault`: deposits, decided around the runtime's transfer.
//! - `runtime`: what the engine asks of the runtime: the time, and the
//!   instruction of a native transfer.
//! - `error`: the errors, each with its message.
//! - `laws`: what holds across calls.
//! - `calculator`: an overflow-safe calculator with a history.

pub mod accounts;
pub mod address;
pub mod blog;
pub mod calculator;
pub mod constraints;
pub mod error;
pub mod laws;
pub mod runtime;
pub mod vault;
