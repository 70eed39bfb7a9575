//! What holds of every ledger, whatever was done to it: each law is stated
//! over the record sequences that the stores' contracts speak of.

use vstd::prelude::*;

use crate::clock::Timestamp;
use crate::models::{ApiTransaction, Transaction};
use crate::store::{
    after_create, after_delete, after_update, dates_in_order, holds_id, ids_distinct, index_of,
    lemma_index_of, lemma_same_ids_same_index, lookup, oldest_first,
};

verus! {

/// Timestamps are totally ordered: `le` is reflexive, transitive, total
/// and antisymmetric.
pub proof fn law_time_order(a: Timestamp, b: Timestamp, c: Timestamp)
    ensures
        a.le(a),
        a.le(b) && b.le(c) ==> a.le(c),
        a.le(b) || b.le(a),
        a.le(b) && b.le(a) ==> a == b,
{
}

/// A record created under an identifier that no record has yet is the one
/// that a lookup of that identifier then gives, equal in every field: the
/// caller's fields (each amount exactly as it was sent), the actor, both
/// dates at the time of creation, and not deleted.
pub proof fn law_create_then_get(
    records: Seq<Transaction>,
    id: u128,
    actor: u128,
    input: ApiTransaction,
    now: Timestamp,
)
    requires
        !holds_id(records, id),
    ensures
        lookup(after_create(records, id, actor, input, now), id) == Some(
            Transaction::created(id, actor, input, now),
        ),
        Transaction::created(id, actor, input, now).payload() == input,
        Transaction::created(id, actor, input, now).id == id,
        Transaction::created(id, actor, input, now).user_id == actor,
        Transaction::created(id, actor, input, now).date_created == now,
        Transaction::created(id, actor, input, now).date_updated == Some(now),
        !Transaction::created(id, actor, input, now).deleted,
{
    let after = after_create(records, id, actor, input, now);
    lemma_index_of(records, id);
    assert(after.drop_last() =~= records);
    assert(index_of(after, id) == Some(records.len() as int));
}

/// No amount is altered on its way into the ledger or out of it: a record
/// that was created or replaced holds each amount as the caller sent it,
/// and a deletion leaves each as it was.
pub proof fn law_amounts_kept(
    was: Transaction,
    id: u128,
    actor: u128,
    input: ApiTransaction,
    now: Timestamp,
)
    ensures
        Transaction::created(id, actor, input, now).payload().same_amounts(input),
        was.replaced(actor, input, now).payload().same_amounts(input),
        was.removed(actor, now).payload().same_amounts(was.payload()),
{
}

/// A creation changes the answer of no lookup that found a record before.
pub proof fn law_create_keeps_found(
    records: Seq<Transaction>,
    id: u128,
    actor: u128,
    input: ApiTransaction,
    now: Timestamp,
    other: u128,
)
    requires
        holds_id(records, other),
    ensures
        lookup(after_create(records, id, actor, input, now), other) == lookup(records, other),
{
    let after = after_create(records, id, actor, input, now);
    lemma_index_of(records, other);
    assert(after.drop_last() =~= records);
}

/// After an update of an identifier that some record has, a lookup of it
/// gives a record whose caller-set fields are the new ones, whose actor is
/// the one that updated, and whose identifier, creation date and deletion
/// flag are as before.
pub proof fn law_update_then_get(
    records: Seq<Transaction>,
    id: u128,
    actor: u128,
    input: ApiTransaction,
    now: Timestamp,
)
    requires
        holds_id(records, id),
    ensures
        lookup(records, id) matches Some(before) && lookup(
            after_update(records, id, actor, input, now),
            id,
        ) matches Some(tx) && tx == before.replaced(actor, input, now) && tx.payload() == input
            && tx.user_id == actor && tx.date_updated == Some(now) && tx.id == id
            && tx.date_created == before.date_created && tx.deleted == before.deleted,
{
    lemma_index_of(records, id);
    let after = after_update(records, id, actor, input, now);
    lemma_same_ids_same_index(records, after, id);
}

/// After a deletion of an identifier that some record has, a lookup of it
/// gives the record as it was, but marked deleted and stamped with the actor
/// and the time of the deletion, so with no earlier time.
pub proof fn law_delete_then_get(records: Seq<Transaction>, id: u128, actor: u128, now: Timestamp)
    requires
        holds_id(records, id),
    ensures
        lookup(records, id) matches Some(before) && lookup(
            after_delete(records, id, actor, now),
            id,
        ) matches Some(tx) && tx == before.removed(actor, now) && tx.deleted && tx.user_id == actor
            && tx.date_updated == Some(now) && now.le(tx.date_updated.unwrap()) && tx.id == id
            && tx.payload() == before.payload() && tx.date_created == before.date_created,
{
    lemma_index_of(records, id);
    let after = after_delete(records, id, actor, now);
    lemma_same_ids_same_index(records, after, id);
}

/// Where no record has an identifier, a lookup of it finds nothing, and an
/// update or a deletion of it changes nothing.
pub proof fn law_missing_id(
    records: Seq<Transaction>,
    id: u128,
    actor: u128,
    input: ApiTransaction,
    now: Timestamp,
)
    requires
        !holds_id(records, id),
    ensures
        lookup(records, id).is_none(),
        after_update(records, id, actor, input, now) == records,
        after_delete(records, id, actor, now) == records,
{
    lemma_index_of(records, id);
}

/// An update or a deletion of one identifier changes the answer of no
/// lookup of another, and neither adds nor drops a record.
pub proof fn law_others_untouched(
    records: Seq<Transaction>,
    id: u128,
    actor: u128,
    input: ApiTransaction,
    now: Timestamp,
    other: u128,
)
    requires
        other != id,
    ensures
        lookup(after_update(records, id, actor, input, now), other) == lookup(records, other),
        lookup(after_delete(records, id, actor, now), other) == lookup(records, other),
        after_update(records, id, actor, input, now).len() == records.len(),
        after_delete(records, id, actor, now).len() == records.len(),
{
    lemma_index_of(records, id);
    lemma_index_of(records, other);
    lemma_same_ids_same_index(records, after_update(records, id, actor, input, now), other);
    lemma_same_ids_same_index(records, after_delete(records, id, actor, now), other);
}

/// Records that stand oldest first still do after a creation at a time that
/// is not before any of theirs, and after any update or deletion.
pub proof fn law_oldest_first_kept(
    records: Seq<Transaction>,
    id: u128,
    actor: u128,
    input: ApiTransaction,
    now: Timestamp,
)
    requires
        oldest_first(records),
    ensures
        (forall|i: int| 0 <= i < records.len() ==> (#[trigger] records[i]).date_created.le(now))
            ==> oldest_first(after_create(records, id, actor, input, now)),
        oldest_first(after_update(records, id, actor, input, now)),
        oldest_first(after_delete(records, id, actor, now)),
{
    lemma_index_of(records, id);
    let updated = after_update(records, id, actor, input, now);
    assert forall|i: int, j: int| 0 <= i < j < updated.len() implies (#[trigger] updated[i])
        .date_created.le((#[trigger] updated[j]).date_created) by {
        assert(updated[i].date_created == records[i].date_created);
        assert(updated[j].date_created == records[j].date_created);
    }
    let deleted = after_delete(records, id, actor, now);
    assert forall|i: int, j: int| 0 <= i < j < deleted.len() implies (#[trigger] deleted[i])
        .date_created.le((#[trigger] deleted[j]).date_created) by {
        assert(deleted[i].date_created == records[i].date_created);
        assert(deleted[j].date_created == records[j].date_created);
    }
    if forall|i: int| 0 <= i < records.len() ==> (#[trigger] records[i]).date_created.le(now) {
        let created = after_create(records, id, actor, input, now);
        assert forall|i: int, j: int| 0 <= i < j < created.len() implies (#[trigger] created[i])
            .date_created.le((#[trigger] created[j]).date_created) by {
            assert(created[i] == records[i]);
            if j < records.len() {
                assert(created[j] == records[j]);
            }
        }
    }
}

/// Identifiers stay unique: through a creation under an identifier that no
/// record has, and through any update or deletion, which also leave every
/// record's identifier and creation date as they were and revert no
/// deletion.
pub proof fn law_identity_kept(
    records: Seq<Transaction>,
    id: u128,
    actor: u128,
    input: ApiTransaction,
    now: Timestamp,
)
    requires
        ids_distinct(records),
    ensures
        !holds_id(records, id) ==> ids_distinct(after_create(records, id, actor, input, now)),
        ids_distinct(after_update(records, id, actor, input, now)),
        ids_distinct(after_delete(records, id, actor, now)),
        forall|j: int|
            0 <= j < records.len() ==> {
                let was = #[trigger] records[j];
                let updated = after_update(records, id, actor, input, now)[j];
                let deleted = after_delete(records, id, actor, now)[j];
                &&& updated.id == was.id
                &&& deleted.id == was.id
                &&& updated.date_created == was.date_created
                &&& deleted.date_created == was.date_created
                &&& was.deleted ==> updated.deleted && deleted.deleted
            },
{
    lemma_index_of(records, id);
    let updated = after_update(records, id, actor, input, now);
    assert forall|i: int, j: int| 0 <= i < j < updated.len() implies (#[trigger] updated[i]).id != (
    #[trigger] updated[j]).id by {
        assert(updated[i].id == records[i].id);
        assert(updated[j].id == records[j].id);
    }
    let deleted = after_delete(records, id, actor, now);
    assert forall|i: int, j: int| 0 <= i < j < deleted.len() implies (#[trigger] deleted[i]).id != (
    #[trigger] deleted[j]).id by {
        assert(deleted[i].id == records[i].id);
        assert(deleted[j].id == records[j].id);
    }
    if !holds_id(records, id) {
        let created = after_create(records, id, actor, input, now);
        assert forall|i: int, j: int| 0 <= i < j < created.len() implies (#[trigger] created[i]).id
            != (#[trigger] created[j]).id by {
            assert(created[i] == records[i]);
            if j < records.len() {
                assert(created[j] == records[j]);
            }
        }
    }
}

/// No record is updated before it was created: a creation keeps that, and
/// so does an update or a deletion at a time that is not before the
/// creation of the record that it changes.
pub proof fn law_dates_in_order_kept(
    records: Seq<Transaction>,
    id: u128,
    actor: u128,
    input: ApiTransaction,
    now: Timestamp,
)
    requires
        dates_in_order(records),
    ensures
        dates_in_order(after_create(records, id, actor, input, now)),
        (lookup(records, id) matches Some(before) ==> before.date_created.le(now))
            ==> dates_in_order(after_update(records, id, actor, input, now)) && dates_in_order(
            after_delete(records, id, actor, now),
        ),
{
    lemma_index_of(records, id);
    let created = after_create(records, id, actor, input, now);
    assert forall|i: int| 0 <= i < created.len() implies (#[trigger] created[i])
        .dates_in_order() by {
        if i < records.len() {
            assert(created[i] == records[i]);
        }
    }
    if lookup(records, id) matches Some(before) ==> before.date_created.le(now) {
        let updated = after_update(records, id, actor, input, now);
        assert forall|i: int| 0 <= i < updated.len() implies (#[trigger] updated[i])
            .dates_in_order() by {
            if index_of(records, id) != Some(i) {
                assert(updated[i] == records[i]);
            }
        }
        let deleted = after_delete(records, id, actor, now);
        assert forall|i: int| 0 <= i < deleted.len() implies (#[trigger] deleted[i])
            .dates_in_order() by {
            if index_of(records, id) != Some(i) {
                assert(deleted[i] == records[i]);
            }
        }
    }
}

} // verus!
