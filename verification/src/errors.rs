//! The conditions under which an operation is refused.

use vstd::prelude::*;

verus! {

/// Why an operation was refused. Every refusal leaves all records as they
/// were.
#[derive(Clone, Copy, Debug, PartialEq, Eq, Structural)]
pub enum ErrorCode {
    /// The acting user is not the authority of the instruction.
    InstructionDoesNotBelongToAuthority,
    /// The application is not part of the workspace named in the request.
    ApplicationDoesNotBelongToWorkspace,
    /// The instruction is not part of the application named in the request.
    InstructionDoesNotBelongToApplication,
    /// The instruction is not part of the workspace named in the request.
    InstructionDoesNotBelongToWorkspace,
    /// An endpoint is not an account of the instruction named in the request.
    InstructionAccountDoesNotBelongToInstruction,
    /// An endpoint is not part of the application named in the request.
    InstructionAccountDoesNotBelongToApplication,
    /// An endpoint is not part of the workspace named in the request.
    InstructionAccountDoesNotBelongToWorkspace,
    /// The acting user is not an approved collaborator of the workspace.
    CollaboratorStatusNotApproved,
    /// The workspace's budget cannot pay the deposit of the new record.
    BudgetHasUnsufficientFunds,
    /// An endpoint's counter of relations does not read zero.
    CantDeleteAccountWithRelations,
    /// The discriminator and the collection do not describe a kind of account.
    InvalidAccountKind,
    /// Both endpoints of the relation are the same account.
    RelationEndpointsNotDistinct,
    /// A relation between the two endpoints, in this direction, is stored already.
    RelationAlreadyExists,
    /// No relation between the two endpoints, in this direction, is stored.
    RelationNotFound,
    /// The host's clock could not be read.
    ClockUnavailable,
}

} // verus!
