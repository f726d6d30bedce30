//! The records that the operations read and change.

use vstd::prelude::*;
use crate::enums::{AccountKinds, AccountModifiers, CollaboratorStatus};
use crate::errors::ErrorCode;
use crate::keys::Key;
use crate::sysvar::unix_timestamp;

verus! {

/// A stored record: its address, the lamports deposited on it, its content.
#[derive(Clone, Debug, PartialEq, Eq)]
pub struct Account<T> {
    pub key: Key,
    pub lamports: u64,
    pub data: T,
}

/// The acting user: an identity and its balance.
#[derive(Clone, Copy, Debug, PartialEq, Eq)]
pub struct Signer {
    pub key: Key,
    pub lamports: u64,
}

/// An application of a workspace.
#[derive(Clone, Copy, Debug, PartialEq, Eq)]
pub struct Application {
    pub authority: Key,
    pub workspace: Key,
}

/// An instruction of an application.
#[derive(Clone, Debug, PartialEq, Eq)]
pub struct Instruction {
    pub authority: Key,
    pub workspace: Key,
    pub application: Key,
    pub name: String,
    pub body: String,
}

/// A user's membership of a workspace.
#[derive(Clone, Copy, Debug, PartialEq, Eq)]
pub struct Collaborator {
    pub status: CollaboratorStatus,
}

/// The funding pool of a workspace. Its balance is the deposit of its record.
#[derive(Clone, Copy, Debug, PartialEq, Eq)]
pub struct Budget {
    pub authority: Key,
    pub workspace: Key,
}

/// A directed relation between two accounts of one instruction.
#[derive(Clone, Copy, Debug, PartialEq, Eq)]
pub struct InstructionRelation {
    pub authority: Key,
    pub workspace: Key,
    pub application: Key,
    pub instruction: Key,
    pub from: Key,
    pub to: Key,
    pub created_at: i64,
    pub updated_at: i64,
}

/// The counter that goes with an account: how many relations touch it.
#[derive(Clone, Copy, Debug, PartialEq, Eq, Structural)]
pub struct InstructionAccountStats {
    pub quantity_of_relations: u8,
}

/// An account of an instruction: a named, typed endpoint for relations.
#[derive(Clone, Debug, PartialEq, Eq)]
pub struct InstructionAccount {
    pub authority: Key,
    pub workspace: Key,
    pub application: Key,
    pub instruction: Key,
    pub name: String,
    pub kind: AccountKinds,
    pub modifier: Option<AccountModifiers>,
    pub collection: Option<Key>,
    pub payer: Option<Key>,
    pub close: Option<Key>,
    pub space: Option<u16>,
    pub created_at: i64,
    pub updated_at: i64,
    pub instruction_account_stats_bump: u8,
}

impl InstructionRelation {
    /// Fills the relation with its owner, its place and its endpoints. The
    /// timestamps stay.
    pub fn initialize(
        &mut self,
        authority: Key,
        workspace: Key,
        application: Key,
        instruction: Key,
        from: Key,
        to: Key,
    )
        ensures
            *final(self) == (InstructionRelation {
                authority,
                workspace,
                application,
                instruction,
                from,
                to,
                ..*old(self)
            }),
    {
        self.authority = authority;
        self.workspace = workspace;
        self.application = application;
        self.instruction = instruction;
        self.from = from;
        self.to = to;
    }

    /// Sets both timestamps to `now`.
    pub fn set_timestamps(&mut self, now: i64)
        ensures
            *final(self) == (InstructionRelation { created_at: now, updated_at: now, ..*old(self) }),
    {
        self.created_at = now;
        self.updated_at = now;
    }
}

impl InstructionAccountStats {
    /// Sets the counter to zero.
    pub fn initialize(&mut self)
        ensures
            final(self).quantity_of_relations == 0,
    {
        self.quantity_of_relations = 0;
    }

    /// Counts one relation more.
    pub fn increase_relation_quantity(&mut self)
        requires
            old(self).quantity_of_relations < u8::MAX,
        ensures
            final(self).quantity_of_relations == old(self).quantity_of_relations + 1,
    {
        self.quantity_of_relations = self.quantity_of_relations + 1;
    }

    /// Counts one relation less. A counter at zero counts no relation that
    /// could leave.
    pub fn decrease_relation_quantity(&mut self)
        requires
            old(self).quantity_of_relations > 0,
        ensures
            final(self).quantity_of_relations == old(self).quantity_of_relations - 1,
    {
        self.quantity_of_relations = self.quantity_of_relations - 1;
    }

    /// The bytes that a stored counter takes: a header of 8 and the counter.
    pub fn space() -> (bytes: usize)
        ensures
            bytes == 9,
    {
        8 + 1
    }
}

impl InstructionAccount {
    /// Fills the account with its owner, its place, its name and its
    /// settings. The references, the size and the timestamps stay.
    pub fn initialize(
        &mut self,
        name: String,
        authority: Key,
        workspace: Key,
        application: Key,
        instruction: Key,
        kind: AccountKinds,
        modifier: Option<AccountModifiers>,
        instruction_account_stats_bump: u8,
    )
        ensures
            *final(self) == (InstructionAccount {
                authority,
                workspace,
                application,
                instruction,
                name,
                kind,
                modifier,
                instruction_account_stats_bump,
                ..*old(self)
            }),
    {
        self.authority = authority;
        self.workspace = workspace;
        self.application = application;
        self.instruction = instruction;
        self.name = name;
        self.kind = kind;
        self.modifier = modifier;
        self.instruction_account_stats_bump = instruction_account_stats_bump;
    }

    /// Gives the account another name.
    pub fn rename(&mut self, name: String)
        ensures
            *final(self) == (InstructionAccount { name, ..*old(self) }),
    {
        self.name = name;
    }

    /// Gives the account another kind and modifier.
    pub fn change_settings(&mut self, kind: AccountKinds, modifier: Option<AccountModifiers>)
        ensures
            *final(self) == (InstructionAccount { kind, modifier, ..*old(self) }),
    {
        self.kind = kind;
        self.modifier = modifier;
    }

    /// Sets both timestamps to `now`.
    pub fn set_timestamps(&mut self, now: i64)
        ensures
            *final(self) == (InstructionAccount { created_at: now, updated_at: now, ..*old(self) }),
    {
        self.created_at = now;
        self.updated_at = now;
    }

    /// Sets the time of the last change to `now`.
    pub fn set_updated_at(&mut self, now: i64)
        ensures
            *final(self) == (InstructionAccount { updated_at: now, ..*old(self) }),
    {
        self.updated_at = now;
    }

    /// Reads the clock once and sets both timestamps to what it shows. Where
    /// the clock cannot be read, the account stays as it was.
    pub fn initialize_timestamp(&mut self) -> (stamped: Result<(), ErrorCode>)
        ensures
            stamped is Ok ==> *final(self) == (InstructionAccount {
                created_at: final(self).created_at,
                updated_at: final(self).created_at,
                ..*old(self)
            }),
            stamped is Err ==> stamped == Err::<(), ErrorCode>(ErrorCode::ClockUnavailable)
                && *final(self) == *old(self),
    {
        match unix_timestamp() {
            Ok(now) => {
                self.set_timestamps(now);
                Ok(())
            },
            Err(e) => Err(e),
        }
    }

    /// Reads the clock and sets the time of the last change to what it
    /// shows. Where the clock cannot be read, the account stays as it was.
    pub fn bump_timestamp(&mut self) -> (stamped: Result<(), ErrorCode>)
        ensures
            stamped is Ok ==> *final(self) == (InstructionAccount {
                updated_at: final(self).updated_at,
                ..*old(self)
            }),
            stamped is Err ==> stamped == Err::<(), ErrorCode>(ErrorCode::ClockUnavailable)
                && *final(self) == *old(self),
    {
        match unix_timestamp() {
            Ok(now) => {
                self.set_updated_at(now);
                Ok(())
            },
            Err(e) => Err(e),
        }
    }

    /// The bytes that a stored account takes.
    pub fn space() -> (bytes: usize)
        ensures
            bytes == 295,
    {
        8 + 32 + 32 + 32 + 32 + 36 + 2 + 2 + 33 + 33 + 33 + 3 + 1 + 8 + 8
    }
}

} // verus!
