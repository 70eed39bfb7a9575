//! The one type through which the rest of a service reaches its store,
//! whichever backend was chosen when it started.

use vstd::prelude::*;

use crate::dto::{TxId, UserId};
use crate::errors::AppError;
use crate::mock::MockStore;
use crate::models::{ApiTransaction, Transaction};
use crate::postgr::{
    payload_params, PostgresStore, SqlValue, Statement, CREATE_SQL, DELETE_SQL, GET_SQL, LIST_SQL,
    UPDATE_SQL,
};
use crate::store::{create_outcome, delete_outcome, read_outcome, update_outcome};

verus! {

/// The backend that a repository forwards to.
pub enum StoreKind {
    Mock(MockStore),
    Postgres(PostgresStore),
}

/// What an operation of the repository comes to: its outcome, where the
/// in-memory store gave it at once, or the statement that the caller has to
/// run against the engine, whose reply `PostgresStore` then reads.
pub enum Step<T> {
    Done(Result<T, AppError>),
    Run(Statement),
}

/// A store behind one type. The backend is chosen once, when the
/// repository is made, and never changes.
pub struct Repository {
    store: StoreKind,
}

impl Repository {
    /// The records of the in-memory backend; nothing for the persistent
    /// one, whose records are the engine's.
    pub closed spec fn records(self) -> Option<Seq<Transaction>> {
        match self.store {
            StoreKind::Mock(store) => Some(store@),
            StoreKind::Postgres(_) => None,
        }
    }

    /// A repository over an empty in-memory store where `test` is set, over
    /// the persistent store where it is not.
    pub fn new(test: bool) -> (repo: Repository)
        ensures
            test ==> repo.records() == Some(Seq::<Transaction>::empty()),
            !test ==> repo.records().is_none(),
    {
        if test {
            return Repository { store: StoreKind::Mock(MockStore::new()) };
        }
        Repository { store: StoreKind::Postgres(PostgresStore::new()) }
    }

    /// Lists every record, oldest first.
    pub fn get_transactions_list(&self) -> (step: Step<Vec<Transaction>>)
        ensures
            match self.records() {
                Some(records) => step matches Step::Done(Ok(list)) && list@ == records,
                None => step matches Step::Run(st) && st.is(LIST_SQL@, Seq::empty()),
            },
    {
        match &self.store {
            StoreKind::Mock(store) => Step::Done(store.get_transactions_list()),
            StoreKind::Postgres(store) => Step::Run(store.get_transactions_list()),
        }
    }

    /// Reads the record with the identifier `tx_id`.
    pub fn get_transaction(&self, tx_id: TxId) -> (step: Step<Transaction>)
        ensures
            match self.records() {
                Some(records) => step matches Step::Done(r) && read_outcome(records, tx_id.0, r),
                None => step matches Step::Run(st) && st.is(GET_SQL@, seq![SqlValue::Id(tx_id.0)]),
            },
    {
        match &self.store {
            StoreKind::Mock(store) => Step::Done(store.get_transaction(tx_id)),
            StoreKind::Postgres(store) => Step::Run(store.get_transaction(tx_id)),
        }
    }

    /// Creates a transaction for `user_id`.
    pub fn create_transaction(&mut self, user_id: UserId, new_tx: ApiTransaction) -> (step: Step<
        Transaction,
    >)
        ensures
            match old(self).records() {
                Some(before) => step matches Step::Done(r) && final(self).records() matches Some(
                    after,
                ) && create_outcome(before, after, user_id.0, new_tx, r),
                None => (step matches Step::Run(st) && st.is(
                    CREATE_SQL@,
                    payload_params(new_tx).push(SqlValue::Id(user_id.0)),
                )) && final(self).records().is_none(),
            },
    {
        match &mut self.store {
            StoreKind::Mock(store) => Step::Done(store.create_transaction(user_id, new_tx)),
            StoreKind::Postgres(store) => Step::Run(store.create_transaction(user_id, &new_tx)),
        }
    }

    /// Replaces the caller-set fields of the transaction `tx_id`.
    pub fn update_transaction(&mut self, tx_id: TxId, user_id: UserId, tx: ApiTransaction) -> (step:
        Step<Transaction>)
        ensures
            match old(self).records() {
                Some(before) => step matches Step::Done(r) && final(self).records() matches Some(
                    after,
                ) && update_outcome(before, after, tx_id.0, user_id.0, tx, r),
                None => (step matches Step::Run(st) && st.is(
                    UPDATE_SQL@,
                    payload_params(tx).push(SqlValue::Id(user_id.0)).push(SqlValue::Id(tx_id.0)),
                )) && final(self).records().is_none(),
            },
    {
        match &mut self.store {
            StoreKind::Mock(store) => Step::Done(store.update_transaction(tx_id, user_id, tx)),
            StoreKind::Postgres(store) => Step::Run(store.update_transaction(tx_id, user_id, &tx)),
        }
    }

    /// Marks the transaction `tx_id` as deleted.
    pub fn delete_transaction(&mut self, tx_id: TxId, user_id: UserId) -> (step: Step<()>)
        ensures
            match old(self).records() {
                Some(before) => step matches Step::Done(r) && final(self).records() matches Some(
                    after,
                ) && delete_outcome(before, after, tx_id.0, user_id.0, r),
                None => (step matches Step::Run(st) && st.is(
                    DELETE_SQL@,
                    seq![SqlValue::Id(user_id.0), SqlValue::Id(tx_id.0)],
                )) && final(self).records().is_none(),
            },
    {
        match &mut self.store {
            StoreKind::Mock(store) => Step::Done(store.delete_transaction(tx_id, user_id)),
            StoreKind::Postgres(store) => Step::Run(store.delete_transaction(tx_id, user_id)),
        }
    }

    /// Closes the store, and says whether the caller has connections to the
    /// engine to release: it has under the persistent backend only. The
    /// records of the in-memory backend stay.
    pub fn close(&self) -> (release: bool)
        ensures
            release == self.records().is_none(),
    {
        match &self.store {
            StoreKind::Mock(store) => {
                store.close();
                false
            },
            StoreKind::Postgres(_) => true,
        }
    }
}

} // verus!
