//! What every store agrees on: how a sequence of records answers a lookup,
//! and what order it keeps.

use vstd::prelude::*;

use crate::clock::Timestamp;
use crate::errors::AppError;
use crate::ident::reports_missing;
use crate::models::{ApiTransaction, Transaction};

verus! {

/// Some record of `records` has the identifier `id`.
pub open spec fn holds_id(records: Seq<Transaction>, id: u128) -> bool {
    exists|i: int| 0 <= i < records.len() && (#[trigger] records[i]).id == id
}

/// The position of the first record with the identifier `id`, if there is
/// one.
pub open spec fn index_of(records: Seq<Transaction>, id: u128) -> Option<int>
    decreases records.len(),
{
    if records.len() == 0 {
        None
    } else {
        match index_of(records.drop_last(), id) {
            Some(i) => Some(i),
            None => if records.last().id == id {
                Some(records.len() - 1)
            } else {
                None
            },
        }
    }
}

/// The record that a lookup of `id` gives: the first that has it.
pub open spec fn lookup(records: Seq<Transaction>, id: u128) -> Option<Transaction> {
    match index_of(records, id) {
        Some(i) => Some(records[i]),
        None => None,
    }
}

/// The records after a creation: the new record stands last.
pub open spec fn after_create(
    records: Seq<Transaction>,
    id: u128,
    actor: u128,
    input: ApiTransaction,
    now: Timestamp,
) -> Seq<Transaction> {
    records.push(Transaction::created(id, actor, input, now))
}

/// The records after an update of `id`: the first record that has it is
/// replaced in its place; where none has it, nothing changes.
pub open spec fn after_update(
    records: Seq<Transaction>,
    id: u128,
    actor: u128,
    input: ApiTransaction,
    now: Timestamp,
) -> Seq<Transaction> {
    match index_of(records, id) {
        Some(i) => records.update(i, records[i].replaced(actor, input, now)),
        None => records,
    }
}

/// The records after a deletion of `id`: the first record that has it is
/// marked in its place; where none has it, nothing changes.
pub open spec fn after_delete(records: Seq<Transaction>, id: u128, actor: u128, now: Timestamp)
    -> Seq<Transaction> {
    match index_of(records, id) {
        Some(i) => records.update(i, records[i].removed(actor, now)),
        None => records,
    }
}

/// `r` is the answer to a read of `id`: the first record that has it, or
/// the report that none has.
pub open spec fn read_outcome(records: Seq<Transaction>, id: u128, r: Result<Transaction, AppError>)
    -> bool {
    match lookup(records, id) {
        Some(tx) => r == Ok::<Transaction, AppError>(tx),
        None => r matches Err(e) && reports_missing(e, id),
    }
}

/// `r` and `after` are the outcome of a creation by `actor`, under some
/// identifier and at some time: the record that is returned stands last,
/// and tells both.
pub open spec fn create_outcome(
    before: Seq<Transaction>,
    after: Seq<Transaction>,
    actor: u128,
    input: ApiTransaction,
    r: Result<Transaction, AppError>,
) -> bool {
    r matches Ok(tx) && tx == Transaction::created(tx.id, actor, input, tx.date_created) && after
        == after_create(before, tx.id, actor, input, tx.date_created)
}

/// `r` and `after` are the outcome of an update of `id` by `actor` at some
/// time: the replaced record is returned and tells the time; where no
/// record has the identifier, that is reported and nothing changes.
pub open spec fn update_outcome(
    before: Seq<Transaction>,
    after: Seq<Transaction>,
    id: u128,
    actor: u128,
    input: ApiTransaction,
    r: Result<Transaction, AppError>,
) -> bool {
    match lookup(before, id) {
        Some(was) => r matches Ok(tx) && tx.date_updated matches Some(now) && tx == was.replaced(
            actor,
            input,
            now,
        ) && after == after_update(before, id, actor, input, now),
        None => (r matches Err(e) && reports_missing(e, id)) && after == before,
    }
}

/// `r` and `after` are the outcome of a deletion of `id` by `actor` at some
/// time, which the marked record tells; where no record has the identifier,
/// that is reported and nothing changes.
pub open spec fn delete_outcome(
    before: Seq<Transaction>,
    after: Seq<Transaction>,
    id: u128,
    actor: u128,
    r: Result<(), AppError>,
) -> bool {
    match lookup(before, id) {
        Some(_) => r == Ok::<(), AppError>(()) && (lookup(after, id) matches Some(tx) && (
        tx.date_updated matches Some(now) && after == after_delete(before, id, actor, now))),
        None => (r matches Err(e) && reports_missing(e, id)) && after == before,
    }
}

/// No two records share an identifier.
pub open spec fn ids_distinct(records: Seq<Transaction>) -> bool {
    forall|i: int, j: int|
        0 <= i < j < records.len() ==> (#[trigger] records[i]).id != (#[trigger] records[j]).id
}

/// The records stand in the order of their creation, oldest first.
pub open spec fn oldest_first(records: Seq<Transaction>) -> bool {
    forall|i: int, j: int|
        0 <= i < j < records.len() ==> (#[trigger] records[i]).date_created.le(
            (#[trigger] records[j]).date_created,
        )
}

/// No record was updated before it was created.
pub open spec fn dates_in_order(records: Seq<Transaction>) -> bool {
    forall|i: int| 0 <= i < records.len() ==> (#[trigger] records[i]).dates_in_order()
}

/// `index_of` finds the first record with the identifier, and finds none
/// only where no record has it.
pub proof fn lemma_index_of(records: Seq<Transaction>, id: u128)
    ensures
        match index_of(records, id) {
            Some(i) => 0 <= i < records.len() && records[i].id == id && forall|j: int|
                0 <= j < i ==> (#[trigger] records[j]).id != id,
            None => forall|j: int| 0 <= j < records.len() ==> (#[trigger] records[j]).id != id,
        },
        index_of(records, id).is_some() <==> holds_id(records, id),
    decreases records.len(),
{
    if records.len() > 0 {
        let front = records.drop_last();
        lemma_index_of(front, id);
        match index_of(front, id) {
            Some(i) => {
                assert(records[i] == front[i]);
                assert forall|j: int| 0 <= j < i implies (#[trigger] records[j]).id != id by {
                    assert(records[j] == front[j]);
                }
            },
            None => {
                assert forall|j: int| 0 <= j < records.len() - 1 implies (#[trigger] records[j]).id
                    != id by {
                    assert(records[j] == front[j]);
                }
            },
        }
    }
}

/// A record with the identifier before which none has it is the one that
/// `index_of` finds.
pub proof fn lemma_first_is_found(records: Seq<Transaction>, id: u128, i: int)
    requires
        0 <= i < records.len(),
        records[i].id == id,
        forall|j: int| 0 <= j < i ==> (#[trigger] records[j]).id != id,
    ensures
        index_of(records, id) == Some(i),
{
    lemma_index_of(records, id);
}

/// Two sequences that agree on the identifier at every position answer
/// every lookup at the same position.
pub proof fn lemma_same_ids_same_index(a: Seq<Transaction>, b: Seq<Transaction>, id: u128)
    requires
        a.len() == b.len(),
        forall|j: int| 0 <= j < a.len() ==> (#[trigger] a[j]).id == b[j].id,
    ensures
        index_of(a, id) == index_of(b, id),
{
    lemma_index_of(a, id);
    lemma_index_of(b, id);
    match index_of(a, id) {
        Some(i) => {
            assert forall|j: int| 0 <= j < i implies (#[trigger] b[j]).id != id by {
                assert(a[j].id == b[j].id);
            }
            assert(a[i].id == b[i].id);
            lemma_first_is_found(b, id, i);
        },
        None => {
            if let Some(k) = index_of(b, id) {
                assert(a[k].id == b[k].id);
            }
        },
    }
}

} // verus!
