//! The store of live relations, and the two operations that change it.

use vstd::prelude::*;
use crate::collections::{Account, InstructionRelation};
use crate::create_instruction_relation::CreateInstructionRelation;
use crate::delete_instruction_relation::DeleteInstructionRelation;
use crate::errors::ErrorCode;
use crate::keys::Key;
use crate::sysvar::unix_timestamp;

verus! {

/// The live relations. A relation is identified by its ordered pair of
/// endpoints: the store holds at most one from a given account to a given
/// other, and none from an account to itself.
pub struct RelationStore {
    relations: Vec<Account<InstructionRelation>>,
}

/// Whether `relation` leads from `from` to `to`.
pub open spec fn joins(relation: Account<InstructionRelation>, from: Key, to: Key) -> bool {
    relation.data.from == from && relation.data.to == to
}

/// Whether a relation from `from` to `to` is among `relations`.
pub open spec fn holds(relations: Seq<Account<InstructionRelation>>, from: Key, to: Key) -> bool {
    exists|i: int| 0 <= i < relations.len() && joins(#[trigger] relations[i], from, to)
}

/// Whether `relations` can be the content of a store: no relation leads from
/// an account to itself, and no two lead from the same account to the same
/// other.
pub open spec fn well_formed(relations: Seq<Account<InstructionRelation>>) -> bool {
    &&& forall|i: int| 0 <= i < relations.len() ==> (#[trigger] relations[i]).data.from != relations[i].data.to
    &&& forall|i: int, j: int|
        0 <= i < relations.len() && 0 <= j < relations.len() && i != j ==> !joins(
            #[trigger] relations[i],
            (#[trigger] relations[j]).data.from,
            relations[j].data.to,
        )
}

/// Whether `relation` starts or ends at `account`.
pub open spec fn touches(relation: Account<InstructionRelation>, account: Key) -> bool {
    relation.data.from == account || relation.data.to == account
}

/// How many of `relations` start or end at `account`: what the counter that
/// goes with `account` is meant to read.
pub open spec fn touching(relations: Seq<Account<InstructionRelation>>, account: Key) -> nat
    decreases relations.len(),
{
    if relations.len() == 0 {
        0
    } else {
        touching(relations.drop_last(), account) + if touches(relations.last(), account) {
            1nat
        } else {
            0nat
        }
    }
}

/// Why a request to create a relation is refused by a store that holds
/// `relations`, if it is: the first guard that fails, in the order chain of
/// ownership, no such relation stored yet, approved collaborator, funds,
/// counters at zero.
pub open spec fn creation_failure(
    relations: Seq<Account<InstructionRelation>>,
    accounts: CreateInstructionRelation,
    rent_exemption: u64,
) -> Option<ErrorCode> {
    if accounts.ownership_failure() is Some {
        accounts.ownership_failure()
    } else if holds(relations, accounts.from.key, accounts.to.key) {
        Some(ErrorCode::RelationAlreadyExists)
    } else {
        accounts.admission_failure(rent_exemption)
    }
}

/// Why a request to delete a relation is refused by a store that holds
/// `relations`, if it is: the first guard that fails, in the order chain of
/// ownership, relation stored, approved collaborator.
pub open spec fn deletion_failure(
    relations: Seq<Account<InstructionRelation>>,
    accounts: DeleteInstructionRelation,
) -> Option<ErrorCode> {
    if accounts.ownership_failure() is Some {
        accounts.ownership_failure()
    } else if !holds(relations, accounts.from.key, accounts.to.key) {
        Some(ErrorCode::RelationNotFound)
    } else {
        accounts.admission_failure()
    }
}

/// Where the relation from `from` to `to` stands among `relations`. A
/// well-formed content holds it at one place at most.
pub open spec fn stored_at(relations: Seq<Account<InstructionRelation>>, from: Key, to: Key) -> int {
    choose|i: int| 0 <= i < relations.len() && joins(#[trigger] relations[i], from, to)
}

/// What a request to create a relation at the time `now` makes of a store
/// that holds `relations`: the store's content, the records and the result
/// after it. A refused request leaves the content and the records as they
/// were; an accepted one stores the relation and applies its effects.
pub open spec fn creation_outcome(
    relations: Seq<Account<InstructionRelation>>,
    accounts: CreateInstructionRelation,
    rent_exemption: u64,
    now: i64,
) -> (Seq<Account<InstructionRelation>>, CreateInstructionRelation, Result<(), ErrorCode>) {
    match creation_failure(relations, accounts, rent_exemption) {
        Some(e) => (relations, accounts, Err(e)),
        None => (relations.push(accounts.created(now).relation), accounts.created(now), Ok(())),
    }
}

/// What a request to delete a relation makes of a store that holds
/// `relations`: the store's content, the records and the result after it.
/// A refused request leaves the content and the records as they were; an
/// accepted one takes the stored record out of the store and into the
/// request, and applies its effects.
pub open spec fn deletion_outcome(
    relations: Seq<Account<InstructionRelation>>,
    accounts: DeleteInstructionRelation,
) -> (Seq<Account<InstructionRelation>>, DeleteInstructionRelation, Result<(), ErrorCode>) {
    match deletion_failure(relations, accounts) {
        Some(e) => (relations, accounts, Err(e)),
        None => {
            let i = stored_at(relations, accounts.from.key, accounts.to.key);
            (relations.remove(i), accounts.loaded(relations[i]).deleted(), Ok(()))
        },
    }
}

impl View for RelationStore {
    type V = Seq<Account<InstructionRelation>>;

    closed spec fn view(&self) -> Seq<Account<InstructionRelation>> {
        self.relations@
    }
}

impl RelationStore {
    /// Whether the store's content is well formed.
    pub open spec fn wf(&self) -> bool {
        well_formed(self@)
    }

    /// A store without relations.
    pub fn new() -> (store: RelationStore)
        ensures
            store@ == Seq::<Account<InstructionRelation>>::empty(),
            store.wf(),
    {
        RelationStore { relations: Vec::new() }
    }

    /// The number of live relations.
    pub fn len(&self) -> (n: usize)
        ensures
            n == self@.len(),
    {
        self.relations.len()
    }

    /// Where the relation from `from` to `to` is stored, if it is.
    pub fn position(&self, from: &Key, to: &Key) -> (found: Option<usize>)
        ensures
            match found {
                Some(i) => i < self@.len() && joins(self@[i as int], *from, *to),
                None => !holds(self@, *from, *to),
            },
    {
        let mut i: usize = 0;
        while i < self.relations.len()
            invariant
                i <= self.relations.len(),
                forall|j: int| 0 <= j < i ==> !joins(#[trigger] self.relations@[j], *from, *to),
            decreases self.relations.len() - i,
        {
            if self.relations[i].data.from == *from && self.relations[i].data.to == *to {
                return Some(i);
            }
            i += 1;
        }
        None
    }

    /// Tells whether a relation from `from` to `to` is stored.
    pub fn contains(&self, from: &Key, to: &Key) -> (stored: bool)
        ensures
            stored == holds(self@, *from, *to),
    {
        self.position(from, to).is_some()
    }

    /// The stored relation from `from` to `to`, if there is one.
    pub fn get(&self, from: &Key, to: &Key) -> (found: Option<Account<InstructionRelation>>)
        ensures
            match found {
                Some(relation) => self@.contains(relation) && joins(relation, *from, *to),
                None => !holds(self@, *from, *to),
            },
    {
        match self.position(from, to) {
            Some(i) => {
                let stored = &self.relations[i];
                Some(Account { key: stored.key, lamports: stored.lamports, data: stored.data })
            },
            None => None,
        }
    }

    /// Counts the stored relations that start or end at `account`: what the
    /// counter that goes with `account` is meant to read.
    pub fn quantity_of_relations(&self, account: &Key) -> (quantity: usize)
        ensures
            quantity == touching(self@, *account),
    {
        let mut quantity: usize = 0;
        let mut i: usize = 0;
        while i < self.relations.len()
            invariant
                i <= self.relations.len(),
                quantity <= i,
                quantity == touching(self.relations@.take(i as int), *account),
            decreases self.relations.len() - i,
        {
            proof {
                assert(self.relations@.take(i + 1).drop_last() =~= self.relations@.take(i as int));
            }
            if self.relations[i].data.from == *account || self.relations[i].data.to == *account {
                quantity += 1;
            }
            i += 1;
        }
        proof {
            assert(self.relations@.take(i as int) =~= self.relations@);
        }
        quantity
    }

    /// Names the guard that refuses a request to create a relation, if one
    /// does.
    pub fn check_creation(&self, accounts: &CreateInstructionRelation, rent_exemption: u64) -> (checked: Result<(), ErrorCode>)
        ensures
            checked == match creation_failure(self@, *accounts, rent_exemption) {
                Some(e) => Err::<(), ErrorCode>(e),
                None => Ok(()),
            },
    {
        match crate::create_instruction_relation::check_ownership(accounts) {
            Err(e) => {
                return Err(e);
            },
            Ok(()) => {},
        }
        if self.contains(&accounts.from.key, &accounts.to.key) {
            return Err(ErrorCode::RelationAlreadyExists);
        }
        crate::create_instruction_relation::check_admission(accounts, rent_exemption)
    }

    /// Names the guard that refuses a request to delete a relation, if one
    /// does.
    pub fn check_deletion(&self, accounts: &DeleteInstructionRelation) -> (checked: Result<(), ErrorCode>)
        ensures
            checked == match deletion_failure(self@, *accounts) {
                Some(e) => Err::<(), ErrorCode>(e),
                None => Ok(()),
            },
    {
        match crate::delete_instruction_relation::check_ownership(accounts) {
            Err(e) => {
                return Err(e);
            },
            Ok(()) => {},
        }
        if !self.contains(&accounts.from.key, &accounts.to.key) {
            return Err(ErrorCode::RelationNotFound);
        }
        crate::delete_instruction_relation::check_admission(accounts)
    }

    /// Creates the relation that the request describes, at the time `now`.
    ///
    /// Where a guard refuses the request, the error names the first such
    /// guard, and the store and the records stay as they were. Otherwise the
    /// budget pays the deposit to the acting user, each endpoint counts one
    /// relation more, and the relation is stored. An accepted request leaves
    /// room for the deposit in the acting user's balance.
    pub fn create_relation_at(
        &mut self,
        accounts: &mut CreateInstructionRelation,
        rent_exemption: u64,
        now: i64,
    ) -> (created: Result<(), ErrorCode>)
        requires
            old(self).wf(),
            creation_failure(old(self)@, *old(accounts), rent_exemption) is None ==> old(
                accounts,
            ).authority.lamports + old(accounts).relation.lamports <= u64::MAX,
        ensures
            final(self).wf(),
            (final(self)@, *final(accounts), created) == creation_outcome(
                old(self)@,
                *old(accounts),
                rent_exemption,
                now,
            ),
            created is Err ==> final(self)@ == old(self)@ && *final(accounts) == *old(accounts),
            created is Ok ==> {
                &&& holds(final(self)@, old(accounts).from.key, old(accounts).to.key)
                &&& old(accounts).from.key != old(accounts).to.key
                &&& final(accounts).from_stats.quantity_of_relations
                    == old(accounts).from_stats.quantity_of_relations + 1
                &&& final(accounts).to_stats.quantity_of_relations
                    == old(accounts).to_stats.quantity_of_relations + 1
                &&& final(accounts).budget.lamports == old(accounts).budget.lamports - old(
                    accounts,
                ).relation.lamports
                &&& final(accounts).authority.lamports == old(accounts).authority.lamports + old(
                    accounts,
                ).relation.lamports
            },
    {
        match self.check_creation(accounts, rent_exemption) {
            Err(e) => {
                return Err(e);
            },
            Ok(()) => {},
        }
        self.apply_creation(accounts, rent_exemption, now);
        Ok(())
    }

    /// Creates the relation that the request describes, at the time that
    /// the clock shows.
    ///
    /// The guards come first, as in [`RelationStore::create_relation_at`].
    /// Where they pass and the clock cannot be read, the request is refused
    /// with `ClockUnavailable`. A refusal changes nothing.
    pub fn create_relation(&mut self, accounts: &mut CreateInstructionRelation, rent_exemption: u64) -> (created: Result<(), ErrorCode>)
        requires
            old(self).wf(),
            creation_failure(old(self)@, *old(accounts), rent_exemption) is None ==> old(
                accounts,
            ).authority.lamports + old(accounts).relation.lamports <= u64::MAX,
        ensures
            final(self).wf(),
            match creation_failure(old(self)@, *old(accounts), rent_exemption) {
                Some(e) => created == Err::<(), ErrorCode>(e),
                None => created is Ok || created == Err::<(), ErrorCode>(ErrorCode::ClockUnavailable),
            },
            created is Err ==> final(self)@ == old(self)@ && *final(accounts) == *old(accounts),
            created is Ok ==> *final(accounts) == old(accounts).created(
                final(accounts).relation.data.created_at,
            ) && final(self)@ == old(self)@.push(final(accounts).relation),
    {
        match self.check_creation(accounts, rent_exemption) {
            Err(e) => {
                return Err(e);
            },
            Ok(()) => {},
        }
        match unix_timestamp() {
            Ok(now) => {
                self.apply_creation(accounts, rent_exemption, now);
                Ok(())
            },
            Err(e) => Err(e),
        }
    }

    /// Deletes the relation between the endpoints that the request names.
    ///
    /// Where a guard refuses the request, the error names the first such
    /// guard, and the store and the records stay as they were. Otherwise the
    /// stored record is taken out of the store and into the request, its
    /// deposit goes to the acting user, and each endpoint counts one
    /// relation less.
    ///
    /// A counter counts the relations that touch its account, so where the
    /// request is accepted neither counter reads zero; and the acting user's
    /// balance has room for the deposit.
    pub fn delete_relation(&mut self, accounts: &mut DeleteInstructionRelation) -> (deleted: Result<(), ErrorCode>)
        requires
            old(self).wf(),
            deletion_failure(old(self)@, *old(accounts)) is None ==> {
                &&& old(accounts).from_stats.quantity_of_relations > 0
                &&& old(accounts).to_stats.quantity_of_relations > 0
                &&& old(accounts).authority.lamports + old(self)@[stored_at(
                    old(self)@,
                    old(accounts).from.key,
                    old(accounts).to.key,
                )].lamports <= u64::MAX
            },
        ensures
            final(self).wf(),
            (final(self)@, *final(accounts), deleted) == deletion_outcome(old(self)@, *old(accounts)),
            deleted is Err ==> final(self)@ == old(self)@ && *final(accounts) == *old(accounts),
            deleted is Ok ==> {
                &&& holds(old(self)@, old(accounts).from.key, old(accounts).to.key)
                &&& !holds(final(self)@, old(accounts).from.key, old(accounts).to.key)
                &&& final(self)@.len() == old(self)@.len() - 1
                &&& final(accounts).from_stats.quantity_of_relations
                    == old(accounts).from_stats.quantity_of_relations - 1
                &&& final(accounts).to_stats.quantity_of_relations
                    == old(accounts).to_stats.quantity_of_relations - 1
                &&& final(accounts).authority.lamports >= old(accounts).authority.lamports
                &&& final(accounts).budget.lamports == old(accounts).budget.lamports
            },
    {
        match self.check_deletion(accounts) {
            Err(e) => {
                return Err(e);
            },
            Ok(()) => {},
        }
        match self.position(&accounts.from.key, &accounts.to.key) {
            Some(i) => {
                let stored = self.relations.remove(i);
                proof {
                    lemma_remove_keeps_well_formed(old(self)@, i as int);
                    lemma_stored_at(old(self)@, i as int, accounts.from.key, accounts.to.key);
                }
                accounts.relation = stored;
                crate::delete_instruction_relation::handle(accounts)
            },
            None => Err(ErrorCode::RelationNotFound),
        }
    }

    /// Applies the effects of a creation that no guard refuses, and stores
    /// the relation.
    fn apply_creation(&mut self, accounts: &mut CreateInstructionRelation, rent_exemption: u64, now: i64)
        requires
            old(self).wf(),
            creation_failure(old(self)@, *old(accounts), rent_exemption) is None,
            old(accounts).authority.lamports + old(accounts).relation.lamports <= u64::MAX,
        ensures
            final(self).wf(),
            *final(accounts) == old(accounts).created(now),
            final(self)@ == old(self)@.push(final(accounts).relation),
            holds(final(self)@, old(accounts).from.key, old(accounts).to.key),
    {
        let _ = crate::create_instruction_relation::handle_at(accounts, now);
        let stored = Account {
            key: accounts.relation.key,
            lamports: accounts.relation.lamports,
            data: accounts.relation.data,
        };
        self.relations.push(stored);
        proof {
            lemma_push_keeps_well_formed(old(self)@, stored);
        }
    }
}

/// A well-formed content stays well formed when a relation between two
/// distinct accounts, not yet held in that direction, is added; it then
/// holds that relation, and of the others those it held before.
pub proof fn lemma_push_keeps_well_formed(
    relations: Seq<Account<InstructionRelation>>,
    relation: Account<InstructionRelation>,
)
    requires
        well_formed(relations),
        relation.data.from != relation.data.to,
        !holds(relations, relation.data.from, relation.data.to),
    ensures
        well_formed(relations.push(relation)),
        holds(relations.push(relation), relation.data.from, relation.data.to),
        forall|from: Key, to: Key|
            !joins(relation, from, to) ==> holds(relations.push(relation), from, to) == holds(
                relations,
                from,
                to,
            ),
{
    let after = relations.push(relation);
    assert(joins(after[relations.len() as int], relation.data.from, relation.data.to));
    assert forall|i: int, j: int| 0 <= i < after.len() && 0 <= j < after.len() && i != j implies !joins(
        #[trigger] after[i],
        (#[trigger] after[j]).data.from,
        after[j].data.to,
    ) by {
        if i < relations.len() && j < relations.len() {
            assert(after[i] == relations[i]);
            assert(after[j] == relations[j]);
        } else if i < relations.len() {
            assert(after[i] == relations[i]);
        } else {
            assert(after[j] == relations[j]);
        }
    }
    assert forall|from: Key, to: Key| !joins(relation, from, to) implies holds(after, from, to) == holds(
        relations,
        from,
        to,
    ) by {
        if holds(relations, from, to) {
            let i = choose|i: int| 0 <= i < relations.len() && joins(#[trigger] relations[i], from, to);
            assert(joins(after[i], from, to));
        }
        if holds(after, from, to) {
            let i = choose|i: int| 0 <= i < after.len() && joins(#[trigger] after[i], from, to);
            assert(i < relations.len());
            assert(joins(relations[i], from, to));
        }
    }
}

/// A well-formed content stays well formed when a relation is taken out; it
/// then no longer holds that relation, and still holds each of the others.
pub proof fn lemma_remove_keeps_well_formed(relations: Seq<Account<InstructionRelation>>, i: int)
    requires
        well_formed(relations),
        0 <= i < relations.len(),
    ensures
        well_formed(relations.remove(i)),
        !holds(relations.remove(i), relations[i].data.from, relations[i].data.to),
        forall|from: Key, to: Key|
            !joins(relations[i], from, to) ==> holds(relations.remove(i), from, to) == holds(
                relations,
                from,
                to,
            ),
{
    let after = relations.remove(i);
    assert forall|k: int| 0 <= k < after.len() implies #[trigger] after[k] == relations[if k < i {
        k
    } else {
        k + 1
    }] by {}
    assert forall|k: int, j: int| 0 <= k < after.len() && 0 <= j < after.len() && k != j implies !joins(
        #[trigger] after[k],
        (#[trigger] after[j]).data.from,
        after[j].data.to,
    ) by {
        let k0 = if k < i { k } else { k + 1 };
        let j0 = if j < i { j } else { j + 1 };
        assert(after[k] == relations[k0]);
        assert(after[j] == relations[j0]);
    }
    assert forall|k: int| 0 <= k < after.len() implies (#[trigger] after[k]).data.from != after[k].data.to by {
        let k0 = if k < i { k } else { k + 1 };
        assert(after[k] == relations[k0]);
    }
    if holds(after, relations[i].data.from, relations[i].data.to) {
        let k = choose|k: int| 0 <= k < after.len() && joins(#[trigger] after[k], relations[i].data.from, relations[i].data.to);
        let k0 = if k < i { k } else { k + 1 };
        assert(after[k] == relations[k0]);
        assert(joins(relations[k0], relations[i].data.from, relations[i].data.to));
        assert(false);
    }
    assert forall|from: Key, to: Key| !joins(relations[i], from, to) implies holds(after, from, to) == holds(
        relations,
        from,
        to,
    ) by {
        if holds(relations, from, to) {
            let k = choose|k: int| 0 <= k < relations.len() && joins(#[trigger] relations[k], from, to);
            let k1 = if k < i { k } else { k - 1 };
            assert(after[k1] == relations[k]);
            assert(joins(after[k1], from, to));
        }
        if holds(after, from, to) {
            let k = choose|k: int| 0 <= k < after.len() && joins(#[trigger] after[k], from, to);
            let k0 = if k < i { k } else { k + 1 };
            assert(after[k] == relations[k0]);
            assert(joins(relations[k0], from, to));
        }
    }
}

/// Adding a relation counts one more at each account that it touches, and
/// nothing at any other.
pub proof fn lemma_push_counts(
    relations: Seq<Account<InstructionRelation>>,
    relation: Account<InstructionRelation>,
    account: Key,
)
    ensures
        touching(relations.push(relation), account) == touching(relations, account) + if touches(
            relation,
            account,
        ) {
            1nat
        } else {
            0nat
        },
{
    assert(relations.push(relation).drop_last() =~= relations);
}

/// Taking a relation out counts one less at each account that it touches,
/// and nothing at any other.
pub proof fn lemma_remove_counts(relations: Seq<Account<InstructionRelation>>, i: int, account: Key)
    requires
        0 <= i < relations.len(),
    ensures
        touching(relations, account) == touching(relations.remove(i), account) + if touches(
            relations[i],
            account,
        ) {
            1nat
        } else {
            0nat
        },
    decreases relations.len(),
{
    if i == relations.len() - 1 {
        assert(relations.remove(i) =~= relations.drop_last());
    } else {
        lemma_remove_counts(relations.drop_last(), i, account);
        assert(relations.remove(i).drop_last() =~= relations.drop_last().remove(i));
        assert(relations.remove(i).last() == relations.last());
    }
}

/// A stored relation is counted at both of its endpoints.
pub proof fn lemma_stored_relation_is_counted(relations: Seq<Account<InstructionRelation>>, from: Key, to: Key)
    requires
        holds(relations, from, to),
    ensures
        touching(relations, from) >= 1,
        touching(relations, to) >= 1,
{
    let i = choose|i: int| 0 <= i < relations.len() && joins(#[trigger] relations[i], from, to);
    lemma_remove_counts(relations, i, from);
    lemma_remove_counts(relations, i, to);
}

/// In a well-formed content the relation from one account to another
/// stands at one place only.
pub proof fn lemma_stored_at(relations: Seq<Account<InstructionRelation>>, i: int, from: Key, to: Key)
    requires
        well_formed(relations),
        0 <= i < relations.len(),
        joins(relations[i], from, to),
    ensures
        stored_at(relations, from, to) == i,
{
    let j = stored_at(relations, from, to);
    assert(0 <= j < relations.len() && joins(relations[j], from, to));
    if i != j {
        assert(!joins(relations[i], relations[j].data.from, relations[j].data.to));
    }
}

} // verus!
