//! Deposits of native value into a vault.
//!
//! A deposit is decided in two steps around the one thing that only the
//! runtime can do, the transfer itself. `deposit` checks the accounts, the
//! lock and the balance, and hands out the transfer to execute together with
//! the event that records it. The caller has the runtime execute the
//! transfer and reports how it went to `PendingDeposit::settle`, which gives
//! the event out only for a transfer that went through, and the runtime's
//! error for one that did not.

use crate::accounts::Account;
use crate::accounts::Program;
use crate::accounts::Signer;
use crate::address::Address;
use crate::constraints::check_all;
use crate::constraints::first_violation;
use crate::constraints::Requirement;
use crate::error::ConstraintError;
use crate::error::Error;
use crate::error::VaultError;
use crate::runtime::system_program_bytes;
use crate::runtime::system_transfer;
use crate::runtime::system_transfer_data;
use crate::runtime::transfer_accounts;
use crate::runtime::Instruction;
use anchor_lang::prelude::ProgramError;
use vstd::prelude::*;

verus! {

/// The record of a vault. Its balance is the native balance of its account,
/// which the runtime keeps.
#[derive(Clone, Copy, Debug, PartialEq, Eq)]
pub struct Vault {
    /// A locked vault takes no deposits.
    pub locked: bool,
}

/// The accounts of `deposit`.
#[derive(Clone, Debug, PartialEq, Eq)]
pub struct Deposit {
    /// The depositor, who signs.
    pub user: Signer,
    /// The vault that receives the deposit.
    pub vault: Account<Vault>,
    /// The system program, which moves the value.
    pub system_program: Program,
}

/// The record of a deposit that went through.
#[derive(Clone, Copy, Debug, PartialEq, Eq)]
pub struct DepositEvent {
    pub amount: u64,
    pub user: Address,
    pub vault: Address,
}

/// A deposit that passed every check and waits for its transfer.
#[derive(Clone, Debug, PartialEq, Eq)]
pub struct PendingDeposit {
    /// The transfer that the runtime is to execute.
    pub transfer: Instruction,
    /// The event to emit once the transfer has gone through.
    pub event: DepositEvent,
}

impl Deposit {
    /// In this order: the depositor signs; the vault exists; the system
    /// program is supplied; the depositor is writable; the vault is
    /// writable.
    pub open spec fn requirements(self) -> Seq<Requirement> {
        seq![
            Requirement::Signer { account: self.user.key, is_signer: self.user.is_signer },
            Requirement::Initialized { account: self.vault.key, present: self.vault.data is Some },
            Requirement::SystemProgram { supplied: self.system_program.key, executable: self.system_program.executable },
            Requirement::Writable { account: self.user.key, is_writable: self.user.is_writable },
            Requirement::Writable { account: self.vault.key, is_writable: self.vault.is_writable },
        ]
    }

    /// The requirements of the instruction on these accounts, in the order
    /// in which they are evaluated.
    pub fn collect_requirements(&self) -> (list: Vec<Requirement>)
        ensures
            list@ == self.requirements(),
    {
        let mut list: Vec<Requirement> = Vec::new();
        list.push(Requirement::Signer { account: self.user.key, is_signer: self.user.is_signer });
        list.push(Requirement::Initialized { account: self.vault.key, present: self.vault.data.is_some() });
        list.push(Requirement::SystemProgram { supplied: self.system_program.key, executable: self.system_program.executable });
        list.push(Requirement::Writable { account: self.user.key, is_writable: self.user.is_writable });
        list.push(Requirement::Writable { account: self.vault.key, is_writable: self.vault.is_writable });
        assert(list@ =~= self.requirements());
        list
    }

    /// The error that refuses a deposit of `amount` before any transfer is
    /// attempted, `None` where the deposit may go ahead. In this order: the
    /// error of the first requirement that does not hold; `VaultLocked` for
    /// a locked vault; `InsufficientBalance` where the depositor has less
    /// than `amount` available.
    pub open spec fn refusal(self, amount: u64) -> Option<Error> {
        if let Some(error) = first_violation(self.requirements()) {
            Some(error)
        } else if self.vault.data->Some_0.locked {
            Some(Error::Vault(VaultError::VaultLocked))
        } else if self.user.lamports < amount {
            Some(Error::Vault(VaultError::InsufficientBalance))
        } else {
            None
        }
    }

    /// The event that records a deposit of `amount`.
    pub open spec fn event(self, amount: u64) -> DepositEvent {
        DepositEvent { amount, user: self.user.key, vault: self.vault.key }
    }
}

impl PendingDeposit {
    /// Whether this is the pending deposit of `amount` on the accounts of
    /// `ctx`: its event is the event of that deposit, and its transfer is
    /// the system program's transfer of `amount` from the depositor to the
    /// vault.
    pub open spec fn is_for(self, ctx: Deposit, amount: u64) -> bool {
        &&& self.event == ctx.event(amount)
        &&& self.transfer.program_id@ == system_program_bytes()
        &&& self.transfer.accounts@ == transfer_accounts(ctx.user.key, ctx.vault.key)
        &&& self.transfer.data@ == system_transfer_data(amount)
    }

    /// Concludes the deposit with what the runtime answered to the transfer.
    /// A transfer that went through gives the event, once: the pending
    /// deposit is used up. A transfer that failed gives the runtime's own
    /// error back, and no event.
    pub fn settle(self, transferred: Result<(), ProgramError>) -> (r: Result<
        DepositEvent,
        ProgramError,
    >)
        ensures
            r == match transferred {
                Ok(_) => Ok::<DepositEvent, ProgramError>(self.event),
                Err(failure) => Err(failure),
            },
    {
        match transferred {
            Ok(_) => Ok(self.event),
            Err(failure) => Err(failure),
        }
    }
}

/// Decides a deposit of `amount` by the signer into the vault. Nothing is
/// changed: a refused deposit returns its error, an accepted one the
/// transfer to execute and the event to emit after it.
pub fn deposit(ctx: &Deposit, amount: u64) -> (r: Result<PendingDeposit, Error>)
    ensures
        match ctx.refusal(amount) {
            Some(error) => r == Err::<PendingDeposit, Error>(error),
            None => r matches Ok(pending) && pending.is_for(*ctx, amount),
        },
{
    let requirements = ctx.collect_requirements();
    match check_all(&requirements) {
        Ok(()) => {},
        Err(error) => {
            return Err(error);
        },
    }
    let vault = match ctx.vault.data {
        Some(vault) => vault,
        None => {
            assert(!requirements@[1].holds());
            return Err(Error::Constraint(ConstraintError::NotInitialized));
        },
    };
    if vault.locked {
        return Err(Error::Vault(VaultError::VaultLocked));
    }
    if ctx.user.lamports < amount {
        return Err(Error::Vault(VaultError::InsufficientBalance));
    }
    let transfer = system_transfer(&ctx.user.key, &ctx.vault.key, amount);
    let event = DepositEvent { amount, user: ctx.user.key, vault: ctx.vault.key };
    Ok(PendingDeposit { transfer, event })
}

} // verus!
