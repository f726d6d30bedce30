//! Deleting a relation: the request, its guards and its effects.

use vstd::prelude::*;
use crate::collections::{
    Account, Budget, Collaborator, Instruction, InstructionAccount, InstructionAccountStats,
    InstructionRelation, Signer,
};
use crate::errors::ErrorCode;
use crate::keys::Key;

verus! {

/// The records that a request to delete a relation names.
///
/// `relation` is the stored record of the relation, with its deposit.
#[derive(Clone, Debug, PartialEq, Eq)]
pub struct DeleteInstructionRelation {
    pub authority: Signer,
    pub workspace: Key,
    pub instruction: Account<Instruction>,
    pub from: Account<InstructionAccount>,
    pub to: Account<InstructionAccount>,
    pub relation: Account<InstructionRelation>,
    pub collaborator: Collaborator,
    pub budget: Account<Budget>,
    pub from_stats: InstructionAccountStats,
    pub to_stats: InstructionAccountStats,
}

/// The first link that is missing in an endpoint's chain of ownership, if
/// any: to the workspace, to the instruction.
pub open spec fn endpoint_failure(endpoint: InstructionAccount, instruction: Key, workspace: Key) -> Option<ErrorCode> {
    if endpoint.workspace != workspace {
        Some(ErrorCode::InstructionAccountDoesNotBelongToWorkspace)
    } else if endpoint.instruction != instruction {
        Some(ErrorCode::InstructionAccountDoesNotBelongToInstruction)
    } else {
        None
    }
}

/// Finds the first link that is missing in an endpoint's chain of ownership.
pub fn check_endpoint(endpoint: &InstructionAccount, instruction: &Key, workspace: &Key) -> (checked: Result<(), ErrorCode>)
    ensures
        checked == match endpoint_failure(*endpoint, *instruction, *workspace) {
            Some(e) => Err::<(), ErrorCode>(e),
            None => Ok(()),
        },
{
    if endpoint.workspace != *workspace {
        Err(ErrorCode::InstructionAccountDoesNotBelongToWorkspace)
    } else if endpoint.instruction != *instruction {
        Err(ErrorCode::InstructionAccountDoesNotBelongToInstruction)
    } else {
        Ok(())
    }
}

impl DeleteInstructionRelation {
    /// The first guard on the chain of ownership that the request fails, if
    /// any: the instruction in the workspace; `from`, then `to`, in the
    /// workspace and in the instruction.
    pub open spec fn ownership_failure(&self) -> Option<ErrorCode> {
        if self.instruction.data.workspace != self.workspace {
            Some(ErrorCode::InstructionDoesNotBelongToWorkspace)
        } else if endpoint_failure(self.from.data, self.instruction.key, self.workspace) is Some {
            endpoint_failure(self.from.data, self.instruction.key, self.workspace)
        } else if endpoint_failure(self.to.data, self.instruction.key, self.workspace) is Some {
            endpoint_failure(self.to.data, self.instruction.key, self.workspace)
        } else {
            None
        }
    }

    /// The guard that follows the relation's lookup: an approved
    /// collaborator.
    pub open spec fn admission_failure(&self) -> Option<ErrorCode> {
        if !self.collaborator.status.approved() {
            Some(ErrorCode::CollaboratorStatusNotApproved)
        } else {
            None
        }
    }

    /// The request with `stored` as the record of its relation.
    pub open spec fn loaded(&self, stored: Account<InstructionRelation>) -> DeleteInstructionRelation {
        DeleteInstructionRelation { relation: stored, ..*self }
    }

    /// The records after the relation was deleted: its deposit has gone to
    /// the acting user, and each endpoint counts one relation less.
    pub open spec fn deleted(&self) -> DeleteInstructionRelation {
        DeleteInstructionRelation {
            authority: Signer {
                lamports: (self.authority.lamports + self.relation.lamports) as u64,
                ..self.authority
            },
            relation: Account { lamports: 0, ..self.relation },
            from_stats: InstructionAccountStats {
                quantity_of_relations: (self.from_stats.quantity_of_relations - 1) as u8,
            },
            to_stats: InstructionAccountStats {
                quantity_of_relations: (self.to_stats.quantity_of_relations - 1) as u8,
            },
            ..*self
        }
    }
}

/// Checks the chain of ownership of a request, guard by guard, and names the
/// first guard that fails.
pub fn check_ownership(accounts: &DeleteInstructionRelation) -> (checked: Result<(), ErrorCode>)
    ensures
        checked == match accounts.ownership_failure() {
            Some(e) => Err::<(), ErrorCode>(e),
            None => Ok(()),
        },
{
    if accounts.instruction.data.workspace != accounts.workspace {
        return Err(ErrorCode::InstructionDoesNotBelongToWorkspace);
    }
    match check_endpoint(&accounts.from.data, &accounts.instruction.key, &accounts.workspace) {
        Err(e) => {
            return Err(e);
        },
        Ok(()) => {},
    }
    check_endpoint(&accounts.to.data, &accounts.instruction.key, &accounts.workspace)
}

/// Checks that the acting user is an approved collaborator.
pub fn check_admission(accounts: &DeleteInstructionRelation) -> (checked: Result<(), ErrorCode>)
    ensures
        checked == match accounts.admission_failure() {
            Some(e) => Err::<(), ErrorCode>(e),
            None => Ok(()),
        },
{
    if !accounts.collaborator.status.is_approved() {
        return Err(ErrorCode::CollaboratorStatusNotApproved);
    }
    Ok(())
}

/// Applies the effects of a deletion: the relation's deposit goes to the
/// acting user, and each endpoint counts one relation less. Both counters
/// count the relation that leaves, so neither reads zero.
pub fn handle(accounts: &mut DeleteInstructionRelation) -> (handled: Result<(), ErrorCode>)
    requires
        old(accounts).authority.lamports + old(accounts).relation.lamports <= u64::MAX,
        old(accounts).from_stats.quantity_of_relations > 0,
        old(accounts).to_stats.quantity_of_relations > 0,
    ensures
        handled == Ok::<(), ErrorCode>(()),
        *final(accounts) == old(accounts).deleted(),
{
    accounts.from_stats.decrease_relation_quantity();
    accounts.to_stats.decrease_relation_quantity();
    accounts.authority.lamports = accounts.authority.lamports + accounts.relation.lamports;
    accounts.relation.lamports = 0;
    Ok(())
}

} // verus!
