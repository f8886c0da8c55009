//! The relationships that an instruction requires of the accounts it is
//! given, and their evaluation.
//!
//! Every instruction declares its requirements as a list. `check_all` goes
//! through the list in order and reports the error of the first requirement
//! that does not hold. An instruction changes nothing before `check_all`
//! has accepted the whole list.

use crate::address::found_bytes;
use crate::address::Address;
use crate::address::Derivation;
use crate::error::ConstraintError;
use crate::error::Error;
use crate::error::ErrorCode;
use crate::runtime::system_program_bytes;
use crate::runtime::system_program_id;
use vstd::prelude::*;

verus! {

/// One required relationship, with the values it is decided on.
#[derive(Clone, Copy, Debug, PartialEq, Eq)]
pub enum Requirement {
    /// The identity at `account` has authorized the call.
    Signer { account: Address, is_signer: bool },
    /// The account at `account` may be written to.
    Writable { account: Address, is_writable: bool },
    /// A record exists at `account`.
    Initialized { account: Address, present: bool },
    /// No record exists at `account` yet.
    Vacant { account: Address, present: bool },
    /// A field of a record holds the expected identity. Where `error` is
    /// given, a mismatch is reported as that error of the program.
    FieldEquals { field: Address, expected: Address, error: Option<ErrorCode> },
    /// The supplied account is at the address derived for its slot.
    AddressMatch { supplied: Address, derivation: Derivation },
    /// The supplied account is the system program, and executable.
    SystemProgram { supplied: Address, executable: bool },
}

/// The error with which a mismatch of fields is reported.
pub open spec fn mismatch_error(error: Option<ErrorCode>) -> Error {
    match error {
        Some(code) => Error::Program(code),
        None => Error::Constraint(ConstraintError::FieldMismatch),
    }
}

impl Requirement {
    /// The error of the requirement where it does not hold, `None` where it
    /// holds.
    pub open spec fn violation(self) -> Option<Error> {
        match self {
            Requirement::Signer { is_signer, .. } => if is_signer {
                None
            } else {
                Some(Error::Constraint(ConstraintError::NotSigner))
            },
            Requirement::Writable { is_writable, .. } => if is_writable {
                None
            } else {
                Some(Error::Constraint(ConstraintError::NotWritable))
            },
            Requirement::Initialized { present, .. } => if present {
                None
            } else {
                Some(Error::Constraint(ConstraintError::NotInitialized))
            },
            Requirement::Vacant { present, .. } => if present {
                Some(Error::Constraint(ConstraintError::AlreadyInitialized))
            } else {
                None
            },
            Requirement::FieldEquals { field, expected, error } => if field == expected {
                None
            } else {
                Some(mismatch_error(error))
            },
            Requirement::AddressMatch { supplied, derivation } => match derivation.address() {
                None => Some(Error::Constraint(ConstraintError::NoDerivedAddress)),
                Some((address, _)) => if address == supplied@ {
                    None
                } else {
                    Some(Error::Constraint(ConstraintError::AddressMismatch))
                },
            },
            Requirement::SystemProgram { supplied, executable } => if supplied@
                != system_program_bytes() {
                Some(Error::Constraint(ConstraintError::InvalidProgramId))
            } else if !executable {
                Some(Error::Constraint(ConstraintError::InvalidProgramExecutable))
            } else {
                None
            },
        }
    }

    /// Whether the requirement holds.
    pub open spec fn holds(self) -> bool {
        self.violation() is None
    }

    /// Evaluates the requirement.
    pub fn check(&self) -> (r: Result<(), Error>)
        ensures
            r == verdict(self.violation()),
    {
        match self {
            Requirement::Signer { is_signer, .. } => {
                if *is_signer {
                    Ok(())
                } else {
                    Err(Error::Constraint(ConstraintError::NotSigner))
                }
            },
            Requirement::Writable { is_writable, .. } => {
                if *is_writable {
                    Ok(())
                } else {
                    Err(Error::Constraint(ConstraintError::NotWritable))
                }
            },
            Requirement::Initialized { present, .. } => {
                if *present {
                    Ok(())
                } else {
                    Err(Error::Constraint(ConstraintError::NotInitialized))
                }
            },
            Requirement::Vacant { present, .. } => {
                if *present {
                    Err(Error::Constraint(ConstraintError::AlreadyInitialized))
                } else {
                    Ok(())
                }
            },
            Requirement::FieldEquals { field, expected, error } => {
                if *field == *expected {
                    Ok(())
                } else {
                    match error {
                        Some(code) => Err(Error::Program(*code)),
                        None => Err(Error::Constraint(ConstraintError::FieldMismatch)),
                    }
                }
            },
            Requirement::AddressMatch { supplied, derivation } => {
                let found = derivation.find();
                assert(found_bytes(found) == derivation.address());
                match found {
                    None => Err(Error::Constraint(ConstraintError::NoDerivedAddress)),
                    Some((address, _)) => {
                        proof {
                            address.lemma_same_bytes(*supplied);
                        }
                        if address == *supplied {
                            Ok(())
                        } else {
                            Err(Error::Constraint(ConstraintError::AddressMismatch))
                        }
                    },
                }
            },
            Requirement::SystemProgram { supplied, executable } => {
                let system = system_program_id();
                proof {
                    system.lemma_same_bytes(*supplied);
                }
                if *supplied != system {
                    Err(Error::Constraint(ConstraintError::InvalidProgramId))
                } else if !*executable {
                    Err(Error::Constraint(ConstraintError::InvalidProgramExecutable))
                } else {
                    Ok(())
                }
            },
        }
    }
}

/// The result of a check: the error where there is one.
pub open spec fn verdict(violation: Option<Error>) -> Result<(), Error> {
    match violation {
        Some(error) => Err(error),
        None => Ok(()),
    }
}

/// The error of the first requirement of the list that does not hold; `None`
/// where all hold.
pub open spec fn first_violation(requirements: Seq<Requirement>) -> Option<Error>
    decreases requirements.len(),
{
    if requirements.len() == 0 {
        None
    } else {
        match requirements[0].violation() {
            Some(error) => Some(error),
            None => first_violation(requirements.drop_first()),
        }
    }
}

/// Evaluates the requirements in order and stops at the first that does not
/// hold.
pub fn check_all(requirements: &Vec<Requirement>) -> (r: Result<(), Error>)
    ensures
        r == verdict(first_violation(requirements@)),
        r is Ok <==> forall|i: int| 0 <= i < requirements@.len() ==> requirements@[i].holds(),
{
    let mut i: usize = 0;
    assert(requirements@.skip(0) =~= requirements@);
    while i < requirements.len()
        invariant
            i <= requirements.len(),
            first_violation(requirements@) == first_violation(requirements@.skip(i as int)),
        decreases requirements.len() - i,
    {
        let ghost rest = requirements@.skip(i as int);
        assert(rest[0] == requirements@[i as int]);
        assert(rest.drop_first() =~= requirements@.skip(i + 1));
        match requirements[i].check() {
            Ok(()) => {},
            Err(error) => {
                proof {
                    lemma_first_violation(requirements@);
                }
                return Err(error);
            },
        }
        i += 1;
    }
    proof {
        lemma_first_violation(requirements@);
    }
    Ok(())
}

/// A list has no first violation exactly when every requirement in it
/// holds, and its first violation is the error of a requirement before
/// which all hold.
pub proof fn lemma_first_violation(requirements: Seq<Requirement>)
    ensures
        first_violation(requirements) is None <==> forall|i: int|
            0 <= i < requirements.len() ==> requirements[i].holds(),
        first_violation(requirements) matches Some(error) ==> exists|i: int|
            0 <= i < requirements.len() && requirements[i].violation() == Some(error) && forall|
                j: int,
            |
                0 <= j < i ==> requirements[j].holds(),
    decreases requirements.len(),
{
    if requirements.len() > 0 {
        let rest = requirements.drop_first();
        lemma_first_violation(rest);
        assert forall|i: int| 0 <= i < rest.len() implies rest[i] == requirements[i + 1] by {}
        match requirements[0].violation() {
            Some(error) => {
                assert(!requirements[0].holds());
                assert(requirements[0].violation() == Some(error) && forall|j: int|
                    0 <= j < 0 ==> requirements[j].holds());
            },
            None => {
                if first_violation(rest) is None {
                    assert forall|i: int| 0 <= i < requirements.len() implies requirements[i].holds() by {
                        if i > 0 {
                            assert(rest[i - 1].holds());
                        }
                    }
                } else {
                    let error = first_violation(rest)->Some_0;
                    let k = choose|i: int|
                        0 <= i < rest.len() && rest[i].violation() == Some(error) && forall|j: int|
                            0 <= j < i ==> rest[j].holds();
                    assert(requirements[k + 1].violation() == Some(error));
                    assert forall|j: int| 0 <= j < k + 1 implies requirements[j].holds() by {
                        if j > 0 {
                            assert(rest[j - 1].holds());
                        }
                    }
                    assert(!requirements[k + 1].holds());
                }
            },
        }
    }
}

/// Where every requirement before the one at `i` holds and that one does
/// not, the first violation of the list is the error of the one at `i`.
pub proof fn lemma_first_violation_at(requirements: Seq<Requirement>, i: int)
    requires
        0 <= i < requirements.len(),
        forall|j: int| 0 <= j < i ==> requirements[j].holds(),
        !requirements[i].holds(),
    ensures
        first_violation(requirements) == requirements[i].violation(),
    decreases i,
{
    if i > 0 {
        assert(requirements[0].holds());
        let rest = requirements.drop_first();
        assert forall|j: int| 0 <= j < i - 1 implies rest[j].holds() by {
            assert(rest[j] == requirements[j + 1]);
        }
        assert(rest[i - 1] == requirements[i]);
        lemma_first_violation_at(rest, i - 1);
    }
}

} // verus!
