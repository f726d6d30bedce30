//! Creating a relation: the request, its guards and its effects.
//!
//! The guard on the counters stands at creation: a relation is created only
//! between two accounts whose counters both read zero, so an account whose
//! counter is kept exact takes part in one relation at a time.

use vstd::prelude::*;
use crate::collections::{
    Account, Application, Budget, Collaborator, Instruction, InstructionAccount,
    InstructionAccountStats, InstructionRelation, Signer,
};
use crate::errors::ErrorCode;
use crate::keys::Key;
use crate::sysvar::unix_timestamp;
use crate::utils::{enough_funds, fund_rent_for_account, has_enough_funds};

verus! {

/// The records that a request to create a relation names.
///
/// `relation` is the record allocated for the new relation: it holds the
/// deposit already, and its content is written when the request succeeds.
#[derive(Clone, Debug, PartialEq, Eq)]
pub struct CreateInstructionRelation {
    pub authority: Signer,
    pub workspace: Key,
    pub application: Account<Application>,
    pub instruction: Account<Instruction>,
    pub from: Account<InstructionAccount>,
    pub to: Account<InstructionAccount>,
    pub relation: Account<InstructionRelation>,
    pub collaborator: Collaborator,
    pub budget: Account<Budget>,
    pub from_stats: InstructionAccountStats,
    pub to_stats: InstructionAccountStats,
}

/// The first link that is missing in an endpoint's chain of ownership, if
/// any: to the instruction, to the application, to the workspace.
pub open spec fn endpoint_failure(
    endpoint: InstructionAccount,
    instruction: Key,
    application: Key,
    workspace: Key,
) -> Option<ErrorCode> {
    if endpoint.instruction != instruction {
        Some(ErrorCode::InstructionAccountDoesNotBelongToInstruction)
    } else if endpoint.application != application {
        Some(ErrorCode::InstructionAccountDoesNotBelongToApplication)
    } else if endpoint.workspace != workspace {
        Some(ErrorCode::InstructionAccountDoesNotBelongToWorkspace)
    } else {
        None
    }
}

/// Finds the first link that is missing in an endpoint's chain of ownership.
pub fn check_endpoint(
    endpoint: &InstructionAccount,
    instruction: &Key,
    application: &Key,
    workspace: &Key,
) -> (checked: Result<(), ErrorCode>)
    ensures
        checked == match endpoint_failure(*endpoint, *instruction, *application, *workspace) {
            Some(e) => Err::<(), ErrorCode>(e),
            None => Ok(()),
        },
{
    if endpoint.instruction != *instruction {
        Err(ErrorCode::InstructionAccountDoesNotBelongToInstruction)
    } else if endpoint.application != *application {
        Err(ErrorCode::InstructionAccountDoesNotBelongToApplication)
    } else if endpoint.workspace != *workspace {
        Err(ErrorCode::InstructionAccountDoesNotBelongToWorkspace)
    } else {
        Ok(())
    }
}

impl CreateInstructionRelation {
    /// The first guard on the chain of ownership that the request fails, if
    /// any: the application in the workspace; the instruction in the
    /// application and in the workspace; `from`, then `to`, in the
    /// instruction, the application and the workspace; two distinct
    /// endpoints.
    pub open spec fn ownership_failure(&self) -> Option<ErrorCode> {
        if self.application.data.workspace != self.workspace {
            Some(ErrorCode::ApplicationDoesNotBelongToWorkspace)
        } else if self.instruction.data.application != self.application.key {
            Some(ErrorCode::InstructionDoesNotBelongToApplication)
        } else if self.instruction.data.workspace != self.workspace {
            Some(ErrorCode::InstructionDoesNotBelongToWorkspace)
        } else if endpoint_failure(self.from.data, self.instruction.key, self.application.key, self.workspace) is Some {
            endpoint_failure(self.from.data, self.instruction.key, self.application.key, self.workspace)
        } else if endpoint_failure(self.to.data, self.instruction.key, self.application.key, self.workspace) is Some {
            endpoint_failure(self.to.data, self.instruction.key, self.application.key, self.workspace)
        } else if self.from.key == self.to.key {
            Some(ErrorCode::RelationEndpointsNotDistinct)
        } else {
            None
        }
    }

    /// Whether the budget, less its own reserve of `rent_exemption`, covers
    /// the deposit of the new relation.
    pub open spec fn funds_suffice(&self, rent_exemption: u64) -> bool {
        enough_funds(self.budget.lamports, self.relation.lamports, rent_exemption)
    }

    /// The first of the remaining guards that the request fails, if any: an
    /// approved collaborator, a budget that covers the deposit, and counters
    /// that read zero at both endpoints.
    pub open spec fn admission_failure(&self, rent_exemption: u64) -> Option<ErrorCode> {
        if !self.collaborator.status.approved() {
            Some(ErrorCode::CollaboratorStatusNotApproved)
        } else if !self.funds_suffice(rent_exemption) {
            Some(ErrorCode::BudgetHasUnsufficientFunds)
        } else if self.from_stats.quantity_of_relations != 0 || self.to_stats.quantity_of_relations != 0 {
            Some(ErrorCode::CantDeleteAccountWithRelations)
        } else {
            None
        }
    }

    /// Whether the budget holds the deposit that it is to pay.
    pub open spec fn funded(&self) -> bool {
        self.budget.lamports >= self.relation.lamports
    }

    /// Whether the effects fit the records' integers: the acting user's
    /// balance has room for the deposit, and each counter for one more.
    pub open spec fn room(&self) -> bool {
        &&& self.authority.lamports + self.relation.lamports <= u64::MAX
        &&& self.from_stats.quantity_of_relations < u8::MAX
        &&& self.to_stats.quantity_of_relations < u8::MAX
    }

    /// The relation that the request describes, created at `now`.
    pub open spec fn described(&self, now: i64) -> InstructionRelation {
        InstructionRelation {
            authority: self.authority.key,
            workspace: self.workspace,
            application: self.application.key,
            instruction: self.instruction.key,
            from: self.from.key,
            to: self.to.key,
            created_at: now,
            updated_at: now,
        }
    }

    /// The records after the relation was created at `now`: the budget has
    /// paid the deposit to the acting user, the relation is written, and
    /// each endpoint counts one relation more.
    pub open spec fn created(&self, now: i64) -> CreateInstructionRelation {
        CreateInstructionRelation {
            authority: Signer {
                lamports: (self.authority.lamports + self.relation.lamports) as u64,
                ..self.authority
            },
            budget: Account {
                lamports: (self.budget.lamports - self.relation.lamports) as u64,
                ..self.budget
            },
            relation: Account { data: self.described(now), ..self.relation },
            from_stats: InstructionAccountStats {
                quantity_of_relations: (self.from_stats.quantity_of_relations + 1) as u8,
            },
            to_stats: InstructionAccountStats {
                quantity_of_relations: (self.to_stats.quantity_of_relations + 1) as u8,
            },
            ..*self
        }
    }
}

/// Checks the chain of ownership of a request, guard by guard, and names the
/// first guard that fails.
pub fn check_ownership(accounts: &CreateInstructionRelation) -> (checked: Result<(), ErrorCode>)
    ensures
        checked == match accounts.ownership_failure() {
            Some(e) => Err::<(), ErrorCode>(e),
            None => Ok(()),
        },
{
    if accounts.application.data.workspace != accounts.workspace {
        return Err(ErrorCode::ApplicationDoesNotBelongToWorkspace);
    }
    if accounts.instruction.data.application != accounts.application.key {
        return Err(ErrorCode::InstructionDoesNotBelongToApplication);
    }
    if accounts.instruction.data.workspace != accounts.workspace {
        return Err(ErrorCode::InstructionDoesNotBelongToWorkspace);
    }
    match check_endpoint(&accounts.from.data, &accounts.instruction.key, &accounts.application.key, &accounts.workspace) {
        Err(e) => {
            return Err(e);
        },
        Ok(()) => {},
    }
    match check_endpoint(&accounts.to.data, &accounts.instruction.key, &accounts.application.key, &accounts.workspace) {
        Err(e) => {
            return Err(e);
        },
        Ok(()) => {},
    }
    if accounts.from.key == accounts.to.key {
        return Err(ErrorCode::RelationEndpointsNotDistinct);
    }
    Ok(())
}

/// Checks that the budget can pay for the new relation: `Ok(true)` where
/// its balance, less its own reserve of `rent_exemption`, covers the
/// deposit, and `BudgetHasUnsufficientFunds` where it does not.
pub fn validate(accounts: &CreateInstructionRelation, rent_exemption: u64) -> (valid: Result<bool, ErrorCode>)
    ensures
        accounts.funds_suffice(rent_exemption) ==> valid == Ok::<bool, ErrorCode>(true),
        !accounts.funds_suffice(rent_exemption) ==> valid == Err::<bool, ErrorCode>(
            ErrorCode::BudgetHasUnsufficientFunds,
        ),
{
    if !has_enough_funds(accounts.budget.lamports, accounts.relation.lamports, rent_exemption) {
        return Err(ErrorCode::BudgetHasUnsufficientFunds);
    }
    Ok(true)
}

/// Checks the guards that follow the chain of ownership, in their order, and
/// names the first that fails.
pub fn check_admission(accounts: &CreateInstructionRelation, rent_exemption: u64) -> (checked: Result<(), ErrorCode>)
    ensures
        checked == match accounts.admission_failure(rent_exemption) {
            Some(e) => Err::<(), ErrorCode>(e),
            None => Ok(()),
        },
{
    if !accounts.collaborator.status.is_approved() {
        return Err(ErrorCode::CollaboratorStatusNotApproved);
    }
    match validate(accounts, rent_exemption) {
        Err(e) => {
            return Err(e);
        },
        Ok(_) => {},
    }
    if accounts.from_stats.quantity_of_relations != 0 || accounts.to_stats.quantity_of_relations != 0 {
        return Err(ErrorCode::CantDeleteAccountWithRelations);
    }
    Ok(())
}

/// Applies the effects of a creation at the time `now`: the budget pays the
/// deposit to the acting user, the relation is written with `now` as both
/// timestamps, and each endpoint counts one relation more. A budget that
/// does not hold the deposit is refused, and nothing changes.
pub fn handle_at(accounts: &mut CreateInstructionRelation, now: i64) -> (handled: Result<(), ErrorCode>)
    requires
        old(accounts).funded() ==> old(accounts).room(),
    ensures
        old(accounts).funded() ==> handled is Ok && *final(accounts) == old(accounts).created(now),
        !old(accounts).funded() ==> handled == Err::<(), ErrorCode>(ErrorCode::BudgetHasUnsufficientFunds)
            && *final(accounts) == *old(accounts),
{
    let deposit: u64 = accounts.relation.lamports;
    match fund_rent_for_account(&mut accounts.budget.lamports, &mut accounts.authority.lamports, deposit) {
        Err(e) => {
            return Err(e);
        },
        Ok(()) => {},
    }
    let authority: Key = accounts.authority.key;
    let workspace: Key = accounts.workspace;
    let application: Key = accounts.application.key;
    let instruction: Key = accounts.instruction.key;
    let from: Key = accounts.from.key;
    let to: Key = accounts.to.key;
    accounts.relation.data.initialize(authority, workspace, application, instruction, from, to);
    accounts.relation.data.set_timestamps(now);
    accounts.from_stats.increase_relation_quantity();
    accounts.to_stats.increase_relation_quantity();
    Ok(())
}

/// Applies the effects of a creation at the time that the clock shows. A
/// budget that does not hold the deposit is refused; so is the request where
/// the clock cannot be read. A refusal changes nothing.
pub fn handle(accounts: &mut CreateInstructionRelation) -> (handled: Result<(), ErrorCode>)
    requires
        old(accounts).funded() ==> old(accounts).room(),
    ensures
        !old(accounts).funded() ==> handled == Err::<(), ErrorCode>(ErrorCode::BudgetHasUnsufficientFunds),
        old(accounts).funded() && handled is Err ==> handled == Err::<(), ErrorCode>(ErrorCode::ClockUnavailable),
        handled is Err ==> *final(accounts) == *old(accounts),
        handled is Ok ==> *final(accounts) == old(accounts).created(final(accounts).relation.data.created_at),
{
    if accounts.budget.lamports < accounts.relation.lamports {
        return Err(ErrorCode::BudgetHasUnsufficientFunds);
    }
    match unix_timestamp() {
        Ok(now) => handle_at(accounts, now),
        Err(e) => Err(e),
    }
}

} // verus!
