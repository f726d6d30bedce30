//! Deleting an instruction: the request, its guard and its effects.

use vstd::prelude::*;
use crate::collections::{Account, Instruction, Signer};
use crate::errors::ErrorCode;

verus! {

/// The records that a request to delete an instruction names.
#[derive(Clone, Debug, PartialEq, Eq)]
pub struct DeleteInstruction {
    pub instruction: Account<Instruction>,
    pub authority: Signer,
}

impl DeleteInstruction {
    /// Whether the acting user is the authority of the instruction.
    pub open spec fn authorized(&self) -> bool {
        self.instruction.data.authority == self.authority.key
    }

    /// The records after the instruction was deleted: its record is closed,
    /// and the deposit that it held has gone to the acting user.
    pub open spec fn deleted(&self) -> DeleteInstruction {
        DeleteInstruction {
            instruction: Account { lamports: 0, ..self.instruction },
            authority: Signer {
                lamports: (self.authority.lamports + self.instruction.lamports) as u64,
                ..self.authority
            },
        }
    }
}

/// Deletes the instruction on behalf of its authority: the record is
/// closed, and its deposit goes to the acting user. Anyone else is refused
/// with `InstructionDoesNotBelongToAuthority`, and nothing changes.
pub fn handler(accounts: &mut DeleteInstruction) -> (handled: Result<(), ErrorCode>)
    requires
        old(accounts).authorized() ==> old(accounts).authority.lamports + old(
            accounts,
        ).instruction.lamports <= u64::MAX,
    ensures
        !old(accounts).authorized() ==> handled == Err::<(), ErrorCode>(
            ErrorCode::InstructionDoesNotBelongToAuthority,
        ) && *final(accounts) == *old(accounts),
        old(accounts).authorized() ==> handled is Ok && *final(accounts) == old(accounts).deleted(),
        handled is Ok ==> {
            &&& final(accounts).authority.lamports == old(accounts).authority.lamports + old(
                accounts,
            ).instruction.lamports
            &&& final(accounts).instruction.lamports == 0
        },
{
    if accounts.instruction.data.authority != accounts.authority.key {
        return Err(ErrorCode::InstructionDoesNotBelongToAuthority);
    }
    accounts.authority.lamports = accounts.authority.lamports + accounts.instruction.lamports;
    accounts.instruction.lamports = 0;
    Ok(())
}

} // verus!
