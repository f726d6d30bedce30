//! The tagged values that describe an account and a collaborator.

use vstd::prelude::*;
use crate::errors::ErrorCode;
use crate::keys::Key;

verus! {

/// What an account of an instruction stands for.
#[derive(Clone, Copy, Debug, PartialEq, Eq)]
pub enum AccountKinds {
    /// A typed data record of the given collection.
    Document { id: u8, collection: Key },
    /// An identity that only authorizes.
    Signer { id: u8 },
}

/// How an instruction treats an account.
#[derive(Clone, Copy, Debug, PartialEq, Eq, Structural)]
pub enum AccountModifiers {
    Init { id: u8 },
    Mut { id: u8 },
}

/// Where a user's request to collaborate on a workspace stands.
#[derive(Clone, Copy, Debug, PartialEq, Eq, Structural)]
pub enum CollaboratorStatus {
    Pending { id: u8 },
    Approved { id: u8 },
    Rejected { id: u8 },
}

impl AccountKinds {
    /// The kind that a discriminator and an optional collection describe:
    /// 0 with a collection is a document of that collection, 1 is a signer
    /// whatever the collection, and nothing else is a kind.
    pub open spec fn spec_create(kind: u8, collection: Option<Key>) -> Result<AccountKinds, ErrorCode> {
        if kind == 0 && collection.is_some() {
            Ok(AccountKinds::Document { id: 0, collection: collection.unwrap() })
        } else if kind == 1 {
            Ok(AccountKinds::Signer { id: 1 })
        } else {
            Err(ErrorCode::InvalidAccountKind)
        }
    }

    /// Builds the kind of an account from its discriminator and collection.
    pub fn create(kind: u8, collection: Option<Key>) -> (created: Result<AccountKinds, ErrorCode>)
        ensures
            created == Self::spec_create(kind, collection),
    {
        match (kind, collection) {
            (0, Some(collection)) => Ok(AccountKinds::Document { id: 0, collection }),
            (1, _) => Ok(AccountKinds::Signer { id: 1 }),
            _ => Err(ErrorCode::InvalidAccountKind),
        }
    }
}

impl CollaboratorStatus {
    /// Whether this status lets the collaborator change the workspace.
    pub open spec fn approved(&self) -> bool {
        *self == (CollaboratorStatus::Approved { id: 1 })
    }

    /// Tells whether this status lets the collaborator change the workspace.
    pub fn is_approved(&self) -> (approved: bool)
        ensures
            approved == self.approved(),
    {
        match self {
            CollaboratorStatus::Approved { id } => *id == 1,
            _ => false,
        }
    }
}

} // verus!
