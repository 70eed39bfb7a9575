//! The store that keeps its records in memory, in the order of creation.

use vstd::prelude::*;

use crate::clock::{current_time, Timestamp};
use crate::dto::{TxId, UserId};
use crate::errors::AppError;
use crate::ident::{not_found, random_id, reports_missing};
use crate::models::{ApiTransaction, Transaction};
use crate::store::{
    after_create, after_delete, after_update, create_outcome, delete_outcome, index_of,
    lemma_first_is_found, lemma_index_of, lemma_same_ids_same_index, lookup, read_outcome,
    update_outcome,
};

verus! {

/// An in-memory ledger. Its view is the sequence of its records, in the
/// order in which they were created.
pub struct MockStore {
    records: Vec<Transaction>,
}

impl View for MockStore {
    type V = Seq<Transaction>;

    closed spec fn view(&self) -> Seq<Transaction> {
        self.records@
    }
}

impl MockStore {
    /// An empty ledger.
    pub fn new() -> (store: MockStore)
        ensures
            store@ == Seq::<Transaction>::empty(),
    {
        MockStore { records: Vec::new() }
    }

    /// The position of the first record with the identifier `id`.
    fn position(&self, id: u128) -> (r: Option<usize>)
        ensures
            match r {
                Some(i) => index_of(self@, id) == Some(i as int) && i < self@.len(),
                None => index_of(self@, id).is_none(),
            },
    {
        let mut i: usize = 0;
        while i < self.records.len()
            invariant
                i <= self.records@.len(),
                forall|j: int| 0 <= j < i ==> (#[trigger] self.records@[j]).id != id,
            decreases self.records@.len() - i,
        {
            if self.records[i].id == id {
                proof {
                    lemma_first_is_found(self.records@, id, i as int);
                }
                return Some(i);
            }
            i = i + 1;
        }
        proof {
            lemma_index_of(self.records@, id);
        }
        None
    }

    /// Every record in the order of creation, deleted ones included. An
    /// empty ledger gives an empty list.
    pub fn get_transactions_list(&self) -> (r: Result<Vec<Transaction>, AppError>)
        ensures
            r matches Ok(list) && list@ == self@,
    {
        let mut list: Vec<Transaction> = Vec::new();
        let mut i: usize = 0;
        while i < self.records.len()
            invariant
                i <= self.records@.len(),
                list@ == self.records@.subrange(0, i as int),
            decreases self.records@.len() - i,
        {
            list.push(self.records[i]);
            proof {
                assert(list@ =~= self.records@.subrange(0, i + 1));
            }
            i = i + 1;
        }
        proof {
            assert(list@ =~= self.records@);
        }
        Ok(list)
    }

    /// The record with the identifier `tx_id`, deleted or not.
    pub fn get_transaction(&self, tx_id: TxId) -> (r: Result<Transaction, AppError>)
        ensures
            read_outcome(self@, tx_id.0, r),
    {
        match self.position(tx_id.0) {
            Some(i) => Ok(self.records[i]),
            None => Err(not_found(tx_id.0)),
        }
    }

    /// Appends the record of a new transaction with the identifier `id`,
    /// created at `now` by `user_id`, and returns it.
    pub fn create_at(&mut self, id: TxId, user_id: UserId, new_tx: ApiTransaction, now: Timestamp)
        -> (tx: Transaction)
        ensures
            tx == Transaction::created(id.0, user_id.0, new_tx, now),
            final(self)@ == after_create(old(self)@, id.0, user_id.0, new_tx, now),
    {
        let tx = Transaction::new(id.0, user_id.0, new_tx, now);
        self.records.push(tx);
        tx
    }

    /// Creates a transaction under a random identifier, at the time that
    /// the clock shows. Whatever identifier and time came back, the record
    /// is the one that `create_at` appends for them.
    pub fn create_transaction(&mut self, user_id: UserId, new_tx: ApiTransaction) -> (r: Result<
        Transaction,
        AppError,
    >)
        ensures
            create_outcome(old(self)@, final(self)@, user_id.0, new_tx, r),
    {
        let now = current_time();
        let id = random_id();
        Ok(self.create_at(TxId(id), user_id, new_tx, now))
    }

    /// Replaces, at `now`, every field that a caller may set in the first
    /// record with the identifier `tx_id`, and returns the new record.
    pub fn update_at(&mut self, tx_id: TxId, user_id: UserId, tx: ApiTransaction, now: Timestamp)
        -> (r: Result<Transaction, AppError>)
        ensures
            final(self)@ == after_update(old(self)@, tx_id.0, user_id.0, tx, now),
            match lookup(old(self)@, tx_id.0) {
                Some(before) => r == Ok::<Transaction, AppError>(
                    before.replaced(user_id.0, tx, now),
                ),
                None => r matches Err(e) && reports_missing(e, tx_id.0),
            },
    {
        match self.position(tx_id.0) {
            Some(i) => {
                let mut record = self.records[i];
                record.replace(user_id.0, tx, now);
                self.records.set(i, record);
                Ok(record)
            },
            None => Err(not_found(tx_id.0)),
        }
    }

    /// Replaces the fields of a transaction at the time that the clock
    /// shows. Whatever time came back, the outcome is that of `update_at`
    /// for it.
    pub fn update_transaction(&mut self, tx_id: TxId, user_id: UserId, tx: ApiTransaction) -> (r:
        Result<Transaction, AppError>)
        ensures
            update_outcome(old(self)@, final(self)@, tx_id.0, user_id.0, tx, r),
    {
        let now = current_time();
        self.update_at(tx_id, user_id, tx, now)
    }

    /// Marks, at `now`, the first record with the identifier `tx_id` as
    /// deleted. The record stays in the ledger.
    pub fn delete_at(&mut self, tx_id: TxId, user_id: UserId, now: Timestamp) -> (r: Result<
        (),
        AppError,
    >)
        ensures
            final(self)@ == after_delete(old(self)@, tx_id.0, user_id.0, now),
            match lookup(old(self)@, tx_id.0) {
                Some(_) => r == Ok::<(), AppError>(()),
                None => r matches Err(e) && reports_missing(e, tx_id.0),
            },
    {
        match self.position(tx_id.0) {
            Some(i) => {
                let mut record = self.records[i];
                record.remove(user_id.0, now);
                self.records.set(i, record);
                Ok(())
            },
            None => Err(not_found(tx_id.0)),
        }
    }

    /// Marks a transaction as deleted at the time that the clock shows.
    /// Whatever time came back, the outcome is that of `delete_at` for it.
    pub fn delete_transaction(&mut self, tx_id: TxId, user_id: UserId) -> (r: Result<(), AppError>)
        ensures
            delete_outcome(old(self)@, final(self)@, tx_id.0, user_id.0, r),
    {
        let ghost before = self@;
        let now = current_time();
        let r = self.delete_at(tx_id, user_id, now);
        proof {
            lemma_index_of(before, tx_id.0);
            lemma_same_ids_same_index(before, self@, tx_id.0);
        }
        r
    }

    /// Releases what the store holds: nothing. The records stay.
    pub fn close(&self) {
    }
}

} // verus!
