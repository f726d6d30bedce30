//! What holds of the store across several requests.

use vstd::prelude::*;
use crate::collections::{Account, InstructionRelation};
use crate::create_instruction_relation::CreateInstructionRelation;
use crate::delete_instruction_relation::DeleteInstructionRelation;
use crate::keys::Key;
use crate::errors::ErrorCode;
use crate::relation_store::{
    creation_failure, creation_outcome, deletion_failure, deletion_outcome, holds, joins,
    lemma_push_counts, lemma_push_keeps_well_formed, lemma_remove_counts,
    lemma_remove_keeps_well_formed, lemma_stored_relation_is_counted, stored_at, touching,
    well_formed,
};

verus! {

/// What an accepted creation does to the records of its request: the
/// relation is written as the request describes it, between two distinct
/// accounts and with the given time as both timestamps; each endpoint
/// counts one relation more; the budget pays exactly the deposit and still
/// covers its own reserve; the acting user receives exactly what the budget
/// pays, so that the sum of their balances stays.
pub proof fn lemma_creation_effects(accounts: CreateInstructionRelation, rent_exemption: u64, now: i64)
    requires
        accounts.ownership_failure() is None,
        accounts.admission_failure(rent_exemption) is None,
        accounts.authority.lamports + accounts.relation.lamports <= u64::MAX,
    ensures
        accounts.created(now).relation.data == accounts.described(now),
        accounts.created(now).relation.data.from == accounts.from.key,
        accounts.created(now).relation.data.to == accounts.to.key,
        accounts.created(now).relation.data.from != accounts.created(now).relation.data.to,
        accounts.created(now).relation.data.created_at == now,
        accounts.created(now).relation.data.updated_at == now,
        accounts.created(now).from_stats.quantity_of_relations == accounts.from_stats.quantity_of_relations
            + 1,
        accounts.created(now).to_stats.quantity_of_relations == accounts.to_stats.quantity_of_relations + 1,
        accounts.created(now).budget.lamports == accounts.budget.lamports - accounts.relation.lamports,
        accounts.created(now).budget.lamports >= rent_exemption,
        accounts.created(now).authority.lamports == accounts.authority.lamports
            + accounts.relation.lamports,
        accounts.created(now).budget.lamports + accounts.created(now).authority.lamports
            == accounts.budget.lamports + accounts.authority.lamports,
{
}

/// What an accepted creation does to the store: it adds one record, the
/// relation of the request, and changes no other; the store then holds the
/// relation between the request's endpoints, and of every other ordered pair
/// what it held before.
pub proof fn lemma_creation_stores_one_relation(
    relations: Seq<Account<InstructionRelation>>,
    accounts: CreateInstructionRelation,
    rent_exemption: u64,
    now: i64,
)
    requires
        well_formed(relations),
        creation_failure(relations, accounts, rent_exemption) is None,
    ensures
        ({
            let after = creation_outcome(relations, accounts, rent_exemption, now).0;
            &&& well_formed(after)
            &&& after.len() == relations.len() + 1
            &&& after.last() == accounts.created(now).relation
            &&& forall|i: int| 0 <= i < relations.len() ==> #[trigger] after[i] == relations[i]
            &&& holds(after, accounts.from.key, accounts.to.key)
            &&& forall|from: Key, to: Key|
                !(from == accounts.from.key && to == accounts.to.key) ==> holds(after, from, to) == holds(
                    relations,
                    from,
                    to,
                )
        }),
{
    lemma_push_keeps_well_formed(relations, accounts.created(now).relation);
}

/// A refused creation changes nothing: the store's content and every record
/// of the request, the budget's and the acting user's balance and both
/// counters among them, are what they were, and the result is the error of
/// the first guard that failed.
pub proof fn lemma_refused_creation_changes_nothing(
    relations: Seq<Account<InstructionRelation>>,
    accounts: CreateInstructionRelation,
    rent_exemption: u64,
    now: i64,
)
    requires
        creation_failure(relations, accounts, rent_exemption) is Some,
    ensures
        creation_outcome(relations, accounts, rent_exemption, now).0 == relations,
        creation_outcome(relations, accounts, rent_exemption, now).1 == accounts,
        creation_outcome(relations, accounts, rent_exemption, now).2 == Err::<(), ErrorCode>(
            creation_failure(relations, accounts, rent_exemption).unwrap(),
        ),
{
}

/// What an accepted deletion does to the records of its request: the
/// stored record is closed and its deposit goes to the acting user; each
/// endpoint counts one relation less; the budget keeps its balance.
pub proof fn lemma_deletion_effects(
    relations: Seq<Account<InstructionRelation>>,
    accounts: DeleteInstructionRelation,
)
    requires
        well_formed(relations),
        deletion_failure(relations, accounts) is None,
        accounts.from_stats.quantity_of_relations > 0,
        accounts.to_stats.quantity_of_relations > 0,
        accounts.authority.lamports + relations[stored_at(
            relations,
            accounts.from.key,
            accounts.to.key,
        )].lamports <= u64::MAX,
    ensures
        ({
            let stored = relations[stored_at(relations, accounts.from.key, accounts.to.key)];
            let after = deletion_outcome(relations, accounts).1;
            &&& joins(stored, accounts.from.key, accounts.to.key)
            &&& after.authority.lamports == accounts.authority.lamports + stored.lamports
            &&& after.budget.lamports == accounts.budget.lamports
            &&& after.relation.lamports == 0
            &&& after.relation.data == stored.data
            &&& after.from_stats.quantity_of_relations == accounts.from_stats.quantity_of_relations - 1
            &&& after.to_stats.quantity_of_relations == accounts.to_stats.quantity_of_relations - 1
        }),
{
    assert(holds(relations, accounts.from.key, accounts.to.key));
}

/// What an accepted deletion does to the store: it takes out one record, the
/// relation between the request's endpoints; the store then holds no
/// relation in that direction, and of every other ordered pair, the opposite
/// one among them, what it held before.
pub proof fn lemma_deletion_removes_one_relation(
    relations: Seq<Account<InstructionRelation>>,
    accounts: DeleteInstructionRelation,
)
    requires
        well_formed(relations),
        deletion_failure(relations, accounts) is None,
    ensures
        ({
            let after = deletion_outcome(relations, accounts).0;
            &&& well_formed(after)
            &&& after.len() == relations.len() - 1
            &&& !holds(after, accounts.from.key, accounts.to.key)
            &&& forall|from: Key, to: Key|
                !(from == accounts.from.key && to == accounts.to.key) ==> holds(after, from, to) == holds(
                    relations,
                    from,
                    to,
                )
        }),
{
    assert(holds(relations, accounts.from.key, accounts.to.key));
    let i = stored_at(relations, accounts.from.key, accounts.to.key);
    lemma_remove_keeps_well_formed(relations, i);
}

/// A refused deletion changes nothing: the store's content and every record
/// of the request are what they were.
pub proof fn lemma_refused_deletion_changes_nothing(
    relations: Seq<Account<InstructionRelation>>,
    accounts: DeleteInstructionRelation,
)
    requires
        deletion_failure(relations, accounts) is Some,
    ensures
        deletion_outcome(relations, accounts).0 == relations,
        deletion_outcome(relations, accounts).1 == accounts,
        deletion_outcome(relations, accounts).2 == Err::<(), ErrorCode>(
            deletion_failure(relations, accounts).unwrap(),
        ),
{
}

/// A user who is not an approved collaborator creates nothing: the request
/// is refused, and where the chain of ownership holds and the relation is
/// not stored yet, the error is `CollaboratorStatusNotApproved`.
pub proof fn lemma_unapproved_collaborator_cannot_create(
    relations: Seq<Account<InstructionRelation>>,
    accounts: CreateInstructionRelation,
    rent_exemption: u64,
)
    requires
        !accounts.collaborator.status.approved(),
    ensures
        creation_failure(relations, accounts, rent_exemption) is Some,
        accounts.ownership_failure() is None && !holds(relations, accounts.from.key, accounts.to.key)
            ==> creation_failure(relations, accounts, rent_exemption) == Some(
            ErrorCode::CollaboratorStatusNotApproved,
        ),
{
}

/// A user who is not an approved collaborator deletes nothing: the request
/// is refused, and where the chain of ownership holds and the relation is
/// stored, the error is `CollaboratorStatusNotApproved`.
pub proof fn lemma_unapproved_collaborator_cannot_delete(
    relations: Seq<Account<InstructionRelation>>,
    accounts: DeleteInstructionRelation,
)
    requires
        !accounts.collaborator.status.approved(),
    ensures
        deletion_failure(relations, accounts) is Some,
        accounts.ownership_failure() is None && holds(relations, accounts.from.key, accounts.to.key)
            ==> deletion_failure(relations, accounts) == Some(ErrorCode::CollaboratorStatusNotApproved),
{
}

/// While a relation from one account to another is stored, every request to
/// create a relation between the same endpoints in the same direction is
/// refused, whoever makes it and whatever else it names.
pub proof fn lemma_stored_relation_refuses_creation(
    relations: Seq<Account<InstructionRelation>>,
    accounts: CreateInstructionRelation,
    rent_exemption: u64,
)
    requires
        holds(relations, accounts.from.key, accounts.to.key),
    ensures
        creation_failure(relations, accounts, rent_exemption) is Some,
{
}

/// Once a request to create a relation has succeeded, a second request for
/// the same ordered pair of endpoints is refused, whoever makes it.
pub proof fn lemma_second_creation_fails(
    relations: Seq<Account<InstructionRelation>>,
    first: CreateInstructionRelation,
    first_rent_exemption: u64,
    now: i64,
    second: CreateInstructionRelation,
    second_rent_exemption: u64,
)
    requires
        well_formed(relations),
        creation_failure(relations, first, first_rent_exemption) is None,
        second.from.key == first.from.key,
        second.to.key == first.to.key,
    ensures
        creation_failure(relations.push(first.created(now).relation), second, second_rent_exemption) is Some,
{
    lemma_push_keeps_well_formed(relations, first.created(now).relation);
}

/// A relation and the relation between the same accounts in the opposite
/// direction are two relations: storing the one neither stores the other nor
/// changes what the store answers to a request for it.
pub proof fn lemma_opposite_relations_are_distinct(
    relations: Seq<Account<InstructionRelation>>,
    forth: CreateInstructionRelation,
    forth_rent_exemption: u64,
    now: i64,
    back: CreateInstructionRelation,
    back_rent_exemption: u64,
)
    requires
        well_formed(relations),
        creation_failure(relations, forth, forth_rent_exemption) is None,
        back.from.key == forth.to.key,
        back.to.key == forth.from.key,
    ensures
        !joins(forth.created(now).relation, back.from.key, back.to.key),
        holds(relations.push(forth.created(now).relation), back.from.key, back.to.key) == holds(
            relations,
            back.from.key,
            back.to.key,
        ),
        creation_failure(relations.push(forth.created(now).relation), back, back_rent_exemption)
            == creation_failure(relations, back, back_rent_exemption),
{
    lemma_push_keeps_well_formed(relations, forth.created(now).relation);
}

/// Where the store accepts a request for a relation and a request for the
/// opposite one, it accepts them one after the other, and then holds both.
pub proof fn lemma_opposite_relations_coexist(
    relations: Seq<Account<InstructionRelation>>,
    forth: CreateInstructionRelation,
    forth_rent_exemption: u64,
    forth_now: i64,
    back: CreateInstructionRelation,
    back_rent_exemption: u64,
    back_now: i64,
)
    requires
        well_formed(relations),
        creation_failure(relations, forth, forth_rent_exemption) is None,
        creation_failure(relations, back, back_rent_exemption) is None,
        back.from.key == forth.to.key,
        back.to.key == forth.from.key,
    ensures
        creation_failure(relations.push(forth.created(forth_now).relation), back, back_rent_exemption) is None,
        well_formed(
            relations.push(forth.created(forth_now).relation).push(back.created(back_now).relation),
        ),
        holds(
            relations.push(forth.created(forth_now).relation).push(back.created(back_now).relation),
            forth.from.key,
            forth.to.key,
        ),
        holds(
            relations.push(forth.created(forth_now).relation).push(back.created(back_now).relation),
            back.from.key,
            back.to.key,
        ),
{
    let first = forth.created(forth_now).relation;
    let second = back.created(back_now).relation;
    lemma_opposite_relations_are_distinct(
        relations,
        forth,
        forth_rent_exemption,
        forth_now,
        back,
        back_rent_exemption,
    );
    lemma_push_keeps_well_formed(relations, first);
    lemma_push_keeps_well_formed(relations.push(first), second);
    assert(!joins(second, forth.from.key, forth.to.key));
}

/// Creation keeps the counters exact: where each endpoint's counter reads
/// the number of stored relations that touch its account, it does so again
/// after the relation was created; and the number of relations that touch
/// any other account stays what it was.
pub proof fn lemma_creation_keeps_counters_exact(
    relations: Seq<Account<InstructionRelation>>,
    accounts: CreateInstructionRelation,
    rent_exemption: u64,
    now: i64,
    other: Key,
)
    requires
        creation_failure(relations, accounts, rent_exemption) is None,
        accounts.from_stats.quantity_of_relations == touching(relations, accounts.from.key),
        accounts.to_stats.quantity_of_relations == touching(relations, accounts.to.key),
        other != accounts.from.key,
        other != accounts.to.key,
    ensures
        accounts.created(now).from_stats.quantity_of_relations == touching(
            relations.push(accounts.created(now).relation),
            accounts.from.key,
        ),
        accounts.created(now).to_stats.quantity_of_relations == touching(
            relations.push(accounts.created(now).relation),
            accounts.to.key,
        ),
        touching(relations.push(accounts.created(now).relation), other) == touching(relations, other),
{
    let relation = accounts.created(now).relation;
    lemma_push_counts(relations, relation, accounts.from.key);
    lemma_push_counts(relations, relation, accounts.to.key);
    lemma_push_counts(relations, relation, other);
}

/// Deletion keeps the counters exact: where each endpoint's counter reads
/// the number of stored relations that touch its account, it does so again
/// after the relation, stored at `i`, was deleted; and the number of
/// relations that touch any other account stays what it was.
pub proof fn lemma_deletion_keeps_counters_exact(
    relations: Seq<Account<InstructionRelation>>,
    accounts: DeleteInstructionRelation,
    i: int,
    other: Key,
)
    requires
        0 <= i < relations.len(),
        joins(relations[i], accounts.from.key, accounts.to.key),
        accounts.from_stats.quantity_of_relations == touching(relations, accounts.from.key),
        accounts.to_stats.quantity_of_relations == touching(relations, accounts.to.key),
        other != accounts.from.key,
        other != accounts.to.key,
    ensures
        accounts.loaded(relations[i]).deleted().from_stats.quantity_of_relations == touching(
            relations.remove(i),
            accounts.from.key,
        ),
        accounts.loaded(relations[i]).deleted().to_stats.quantity_of_relations == touching(
            relations.remove(i),
            accounts.to.key,
        ),
        touching(relations.remove(i), other) == touching(relations, other),
{
    lemma_remove_counts(relations, i, accounts.from.key);
    lemma_remove_counts(relations, i, accounts.to.key);
    lemma_remove_counts(relations, i, other);
}

/// Exact counters never read zero at the endpoints of a stored relation, so
/// a deletion of a stored relation always finds a relation to count out.
pub proof fn lemma_exact_counters_allow_deletion(
    relations: Seq<Account<InstructionRelation>>,
    accounts: DeleteInstructionRelation,
)
    requires
        holds(relations, accounts.from.key, accounts.to.key),
        accounts.from_stats.quantity_of_relations == touching(relations, accounts.from.key),
        accounts.to_stats.quantity_of_relations == touching(relations, accounts.to.key),
    ensures
        accounts.from_stats.quantity_of_relations > 0,
        accounts.to_stats.quantity_of_relations > 0,
{
    lemma_stored_relation_is_counted(relations, accounts.from.key, accounts.to.key);
}

/// With exact counters, the guard on the counters lets an account take part
/// in one relation at a time: while a relation touches one of the endpoints
/// of a request, in either direction, the creation is refused.
pub proof fn lemma_exact_counters_refuse_a_connected_endpoint(
    relations: Seq<Account<InstructionRelation>>,
    accounts: CreateInstructionRelation,
    rent_exemption: u64,
)
    requires
        touching(relations, accounts.from.key) > 0 || touching(relations, accounts.to.key) > 0,
        accounts.from_stats.quantity_of_relations == touching(relations, accounts.from.key),
        accounts.to_stats.quantity_of_relations == touching(relations, accounts.to.key),
    ensures
        creation_failure(relations, accounts, rent_exemption) is Some,
{
}

} // verus!
