//! The errors an instruction can end in. Each kind is distinct, and each has
//! a message for the operator.

use vstd::prelude::*;

verus! {

/// The errors of the record-keeping program itself.
#[derive(Clone, Copy, Debug, PartialEq, Eq, Structural)]
pub enum ErrorCode {
    TitleTooLong,
    ContentTooLong,
    TitleEmpty,
    ContentEmpty,
    UnauthorizedUpdate,
    UnauthorizedDelete,
    MathOverflow,
}

/// The business-rule errors of a deposit.
#[derive(Clone, Copy, Debug, PartialEq, Eq, Structural)]
pub enum VaultError {
    VaultLocked,
    InsufficientBalance,
}

/// The ways in which the accounts supplied to an instruction can fail the
/// relationships that the instruction requires of them.
#[derive(Clone, Copy, Debug, PartialEq, Eq, Structural)]
pub enum ConstraintError {
    /// An identity that had to authorize the call did not sign it.
    NotSigner,
    /// An account that the instruction writes to was supplied read-only.
    NotWritable,
    /// A record that had to exist does not.
    NotInitialized,
    /// A record that had to be created exists already.
    AlreadyInitialized,
    /// A field of a record does not hold the identity it had to hold.
    FieldMismatch,
    /// A supplied account is not at the address derived for its slot.
    AddressMismatch,
    /// No address could be derived for the slot at all.
    NoDerivedAddress,
    /// The account supplied as a program is not that program.
    InvalidProgramId,
    /// The account supplied as a program cannot be executed.
    InvalidProgramExecutable,
}

/// Every error of the library.
#[derive(Clone, Copy, Debug, PartialEq, Eq, Structural)]
pub enum Error {
    /// The record-keeping program rejected its input or ran out of numbers.
    Program(ErrorCode),
    /// A deposit broke a business rule of the vault.
    Vault(VaultError),
    /// The supplied accounts do not stand in a required relationship.
    Constraint(ConstraintError),
    /// The runtime could not tell the time.
    ClockUnavailable,
}

impl ErrorCode {
    pub open spec fn message_text(self) -> Seq<char> {
        match self {
            ErrorCode::TitleTooLong => "Title is too long (max 100 characters)"@,
            ErrorCode::ContentTooLong => "Content is too long (max 1000 characters)"@,
            ErrorCode::TitleEmpty => "Title cannot be empty"@,
            ErrorCode::ContentEmpty => "Content cannot be empty"@,
            ErrorCode::UnauthorizedUpdate => "Only the author can update this post"@,
            ErrorCode::UnauthorizedDelete => "Only the author can delete this post"@,
            ErrorCode::MathOverflow => "Math overflow detected"@,
        }
    }

    /// The message of the error.
    pub fn message(&self) -> (text: &'static str)
        ensures
            text@ == self.message_text(),
    {
        match self {
            ErrorCode::TitleTooLong => "Title is too long (max 100 characters)",
            ErrorCode::ContentTooLong => "Content is too long (max 1000 characters)",
            ErrorCode::TitleEmpty => "Title cannot be empty",
            ErrorCode::ContentEmpty => "Content cannot be empty",
            ErrorCode::UnauthorizedUpdate => "Only the author can update this post",
            ErrorCode::UnauthorizedDelete => "Only the author can delete this post",
            ErrorCode::MathOverflow => "Math overflow detected",
        }
    }
}

impl VaultError {
    pub open spec fn message_text(self) -> Seq<char> {
        match self {
            VaultError::VaultLocked => "Vault is locked"@,
            VaultError::InsufficientBalance => "Insufficient balance"@,
        }
    }

    /// The message of the error.
    pub fn message(&self) -> (text: &'static str)
        ensures
            text@ == self.message_text(),
    {
        match self {
            VaultError::VaultLocked => "Vault is locked",
            VaultError::InsufficientBalance => "Insufficient balance",
        }
    }
}

impl ConstraintError {
    pub open spec fn message_text(self) -> Seq<char> {
        match self {
            ConstraintError::NotSigner => "The given account did not sign"@,
            ConstraintError::NotWritable => "The given account is not writable"@,
            ConstraintError::NotInitialized => "The account is not initialized"@,
            ConstraintError::AlreadyInitialized => "The account is already initialized"@,
            ConstraintError::FieldMismatch => "A field of the account names another identity"@,
            ConstraintError::AddressMismatch => "The account is not at its derived address"@,
            ConstraintError::NoDerivedAddress => "No address can be derived for the account"@,
            ConstraintError::InvalidProgramId => "Program ID was not as expected"@,
            ConstraintError::InvalidProgramExecutable => "Program account is not executable"@,
        }
    }

    /// The message of the error.
    pub fn message(&self) -> (text: &'static str)
        ensures
            text@ == self.message_text(),
    {
        match self {
            ConstraintError::NotSigner => "The given account did not sign",
            ConstraintError::NotWritable => "The given account is not writable",
            ConstraintError::NotInitialized => "The account is not initialized",
            ConstraintError::AlreadyInitialized => "The account is already initialized",
            ConstraintError::FieldMismatch => "A field of the account names another identity",
            ConstraintError::AddressMismatch => "The account is not at its derived address",
            ConstraintError::NoDerivedAddress => "No address can be derived for the account",
            ConstraintError::InvalidProgramId => "Program ID was not as expected",
            ConstraintError::InvalidProgramExecutable => "Program account is not executable",
        }
    }
}

impl Error {
    pub open spec fn message_text(self) -> Seq<char> {
        match self {
            Error::Program(code) => code.message_text(),
            Error::Vault(error) => error.message_text(),
            Error::Constraint(error) => error.message_text(),
            Error::ClockUnavailable => "The clock is not available"@,
        }
    }

    /// The message of the error.
    pub fn message(&self) -> (text: &'static str)
        ensures
            text@ == self.message_text(),
    {
        match self {
            Error::Program(code) => code.message(),
            Error::Vault(error) => error.message(),
            Error::Constraint(error) => error.message(),
            Error::ClockUnavailable => "The clock is not available",
        }
    }
}

} // verus!
