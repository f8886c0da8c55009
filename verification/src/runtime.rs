//! The library's side of the ledger runtime: the clock it reads and the
//! native transfer instruction it asks the runtime to execute.

use crate::address::Address;
use anchor_lang::prelude::Clock;
use anchor_lang::prelude::ProgramError;
use anchor_lang::prelude::Pubkey;
use anchor_lang::prelude::SolanaSysvar;
use anchor_lang::solana_program::system_instruction::transfer;
use vstd::bytes::spec_u64_to_le_bytes;
use vstd::prelude::*;

verus! {

/// The error type of the ledger runtime, as its calls hand it back. The
/// library looks at none of its contents.
#[verifier::external_type_specification]
#[verifier::external_body]
pub struct ExProgramError(ProgramError);

/// Reads the runtime's clock: `Clock::get`, of which the Unix timestamp is
/// kept. Trusted, and nothing is claimed of what comes back: the time is the
/// runtime's to tell, and where it has no clock the call fails.
#[verifier::external_body]
pub(crate) fn clock_unix_timestamp() -> (now: Result<i64, ProgramError>) {
    Clock::get().map(|clock| clock.unix_timestamp)
}

/// An account as an instruction names it: its address, whether it signs, and
/// whether the instruction may write to it.
#[derive(Clone, Copy, Debug, PartialEq, Eq)]
pub struct AccountMeta {
    pub pubkey: Address,
    pub is_signer: bool,
    pub is_writable: bool,
}

/// A call into another program of the ledger, as plain values: the program,
/// the accounts it is given, and the bytes of its input.
#[derive(Clone, Debug, PartialEq, Eq)]
pub struct Instruction {
    pub program_id: Address,
    pub accounts: Vec<AccountMeta>,
    pub data: Vec<u8>,
}

/// The bytes of the identifier of the system program, which moves native
/// value: thirty-two zero bytes.
pub open spec fn system_program_bytes() -> Seq<u8> {
    Seq::new(32, |i: int| 0u8)
}

/// The identifier of the system program.
pub fn system_program_id() -> (id: Address)
    ensures
        id@ == system_program_bytes(),
{
    let id = Address {
        bytes: [
            0u8, 0, 0, 0, 0, 0, 0, 0, 0, 0, 0, 0, 0, 0, 0, 0,
            0, 0, 0, 0, 0, 0, 0, 0, 0, 0, 0, 0, 0, 0, 0, 0,
        ],
    };
    assert(id@ =~= system_program_bytes());
    id
}

/// The input bytes of the system program's transfer of `lamports`: the
/// number of the transfer among the system program's instructions, 2, in
/// four little-endian bytes, then the amount in eight.
pub open spec fn system_transfer_data(lamports: u64) -> Seq<u8> {
    seq![2u8, 0u8, 0u8, 0u8] + spec_u64_to_le_bytes(lamports)
}

/// The accounts of a transfer: the sender signs and is written to, the
/// receiver is written to.
pub open spec fn transfer_accounts(from: Address, to: Address) -> Seq<AccountMeta> {
    seq![
        AccountMeta { pubkey: from, is_signer: true, is_writable: true },
        AccountMeta { pubkey: to, is_signer: false, is_writable: true },
    ]
}

/// Builds the system program's transfer instruction with
/// `system_instruction::transfer` and hands it out field by field. Trusted:
/// the instruction is addressed to the system program, names the sender as a
/// writable signer and the receiver as writable, in this order, and its data
/// is the system program's encoding of a transfer of `lamports`: twelve
/// bytes, the instruction's number and the amount.
#[verifier::external_body]
pub(crate) fn system_transfer(from: &Address, to: &Address, lamports: u64) -> (ix: Instruction)
    ensures
        ix.program_id@ == system_program_bytes(),
        ix.accounts@ == transfer_accounts(*from, *to),
        ix.data@ == system_transfer_data(lamports),
{
    let from_key = Pubkey::new_from_array(from.bytes);
    let to_key = Pubkey::new_from_array(to.bytes);
    let ix = transfer(&from_key, &to_key, lamports);
    Instruction {
        program_id: Address { bytes: ix.program_id.to_bytes() },
        accounts: ix.accounts.iter().map(
            |meta|
                AccountMeta {
                    pubkey: Address { bytes: meta.pubkey.to_bytes() },
                    is_signer: meta.is_signer,
                    is_writable: meta.is_writable,
                },
        ).collect(),
        data: ix.data,
    }
}

} // verus!
