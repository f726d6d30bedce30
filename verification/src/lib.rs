//! A permissioned, budget-funded store of directed relations between the
//! accounts of an instruction.
//!
//! Every record is modelled by plain values: a 32-byte [`keys::Key`] for an
//! identity, a lamport balance for a deposit. The operations validate the
//! chain of ownership, the collaborator's approval and the budget's funds
//! before anything is changed, and either apply all of their effects or none.

pub mod keys;
pub mod errors;
pub mod enums;
pub mod sysvar;
pub mod utils;
pub mod collections;
pub mod create_instruction_relation;
pub mod delete_instruction_relation;
pub mod delete_instruction;
pub mod relation_store;
pub mod laws;
