//! The store that keeps its records in a relational table. It decides
//! which statement an operation runs, with which parameters, and what the
//! engine's reply means; running the statement is the caller's part.

use vstd::prelude::*;

use crate::clock::Timestamp;
use crate::dto::{TxId, UserId};
use crate::errors::{system_error, AppError};
use crate::ident::{not_found, reports_missing};
use crate::models::{ApiTransaction, Transaction};
use crate::money::Money;

verus! {

/// Selects every record, oldest first.
pub const LIST_SQL: &'static str = "SELECT * FROM transactions ORDER BY date_created ASC;";

/// Selects the record with the identifier `$1`.
pub const GET_SQL: &'static str = "SELECT * FROM transactions WHERE id = $1;";

/// Inserts a record and returns it; the engine gives it its identifier and
/// its creation date.
pub const CREATE_SQL: &'static str =
    "INSERT INTO transactions (op_date, gas_station_id, card_id, contract_id, nomenclature_id, amount, stella_sum, stella_nds_sum, refund, buy_sum_plan, buy_nds_sum_plan, buy_sum_fact, buy_nds_sum_fact, sell_sum_plan, sell_nds_sum_plan, sell_sum_fact, sell_nds_sum_fact, implementation_id, user_id, date_updated) VALUES ($1, $2, $3, $4, $5, $6, $7, $8, $9, $10, $11, $12, $13, $14, $15, $16, $17, $18, $19, now()) RETURNING *;";

/// Replaces the caller-set fields of the record with the identifier `$20`,
/// stamps it, and returns it.
pub const UPDATE_SQL: &'static str =
    "UPDATE transactions SET op_date = $1, gas_station_id = $2, card_id = $3, contract_id = $4, nomenclature_id = $5, amount = $6, stella_sum = $7, stella_nds_sum = $8, refund = $9, buy_sum_plan = $10, buy_nds_sum_plan = $11, buy_sum_fact = $12, buy_nds_sum_fact = $13, sell_sum_plan = $14, sell_nds_sum_plan = $15, sell_sum_fact = $16, sell_nds_sum_fact = $17, implementation_id = $18, user_id = $19, date_updated = now() WHERE id = $20 RETURNING *;";

/// Marks the record with the identifier `$2` as deleted, stamps it, and
/// returns it.
pub const DELETE_SQL: &'static str =
    "UPDATE transactions SET deleted = true, user_id = $1, date_updated = now() WHERE id = $2 RETURNING *;";

/// A value bound to a placeholder of a statement.
#[derive(Debug, Clone, Copy, PartialEq, Eq, Structural)]
pub enum SqlValue {
    Id(u128),
    OptionalId(Option<u128>),
    Time(Timestamp),
    Amount(Option<Money>),
    Flag(bool),
}

/// A statement with the values for its placeholders, in their order. The
/// text never holds a caller's value.
#[derive(Debug)]
pub struct Statement {
    pub text: &'static str,
    pub params: Vec<SqlValue>,
}

impl Statement {
    /// The statement has the text `text` and binds exactly `params`.
    pub open spec fn is(self, text: Seq<char>, params: Seq<SqlValue>) -> bool {
        self.text@ == text && self.params@ == params
    }
}

/// The values of the caller-set fields, in the order of the columns.
pub open spec fn payload_params(input: ApiTransaction) -> Seq<SqlValue> {
    seq![
        SqlValue::Time(input.op_date),
        SqlValue::Id(input.gas_station_id),
        SqlValue::OptionalId(input.card_id),
        SqlValue::OptionalId(input.contract_id),
        SqlValue::Id(input.nomenclature_id),
        SqlValue::Amount(input.amount),
        SqlValue::Amount(input.stella_sum),
        SqlValue::Amount(input.stella_nds_sum),
        SqlValue::Flag(input.refund),
        SqlValue::Amount(input.buy_sum_plan),
        SqlValue::Amount(input.buy_nds_sum_plan),
        SqlValue::Amount(input.buy_sum_fact),
        SqlValue::Amount(input.buy_nds_sum_fact),
        SqlValue::Amount(input.sell_sum_plan),
        SqlValue::Amount(input.sell_nds_sum_plan),
        SqlValue::Amount(input.sell_sum_fact),
        SqlValue::Amount(input.sell_nds_sum_fact),
        SqlValue::OptionalId(input.implementation_id),
    ]
}

/// The values of the caller-set fields, in the order of the columns.
fn bind_payload(input: &ApiTransaction) -> (params: Vec<SqlValue>)
    ensures
        params@ == payload_params(*input),
{
    let mut params: Vec<SqlValue> = Vec::new();
    params.push(SqlValue::Time(input.op_date));
    params.push(SqlValue::Id(input.gas_station_id));
    params.push(SqlValue::OptionalId(input.card_id));
    params.push(SqlValue::OptionalId(input.contract_id));
    params.push(SqlValue::Id(input.nomenclature_id));
    params.push(SqlValue::Amount(input.amount));
    params.push(SqlValue::Amount(input.stella_sum));
    params.push(SqlValue::Amount(input.stella_nds_sum));
    params.push(SqlValue::Flag(input.refund));
    params.push(SqlValue::Amount(input.buy_sum_plan));
    params.push(SqlValue::Amount(input.buy_nds_sum_plan));
    params.push(SqlValue::Amount(input.buy_sum_fact));
    params.push(SqlValue::Amount(input.buy_nds_sum_fact));
    params.push(SqlValue::Amount(input.sell_sum_plan));
    params.push(SqlValue::Amount(input.sell_nds_sum_plan));
    params.push(SqlValue::Amount(input.sell_sum_fact));
    params.push(SqlValue::Amount(input.sell_nds_sum_fact));
    params.push(SqlValue::OptionalId(input.implementation_id));
    proof {
        assert(params@ =~= payload_params(*input));
    }
    params
}

/// What the engine answered: the rows that the statement returned, or the
/// engine's message where it failed.
pub type Reply = Result<Vec<Transaction>, String>;

/// The outcome of a statement that returns the one record with the
/// identifier `id`: the last row, or the report that no record has it; an
/// engine's failure is a system error with the engine's message.
pub open spec fn one_row_outcome(id: u128, reply: Reply, r: Result<Transaction, AppError>) -> bool {
    match reply {
        Ok(rows) => if rows@.len() == 0 {
            r matches Err(e) && reports_missing(e, id)
        } else {
            r == Ok::<Transaction, AppError>(rows@.last())
        },
        Err(message) => r matches Err(e) && system_error(e, message@),
    }
}

/// The persistent store. It holds no records itself: they are the engine's.
#[derive(Debug)]
pub struct PostgresStore {}

impl PostgresStore {
    /// The persistent store.
    pub fn new() -> (store: PostgresStore) {
        PostgresStore {  }
    }

    /// The statement that lists every record, oldest first.
    pub fn get_transactions_list(&self) -> (st: Statement)
        ensures
            st.is(LIST_SQL@, Seq::empty()),
    {
        Statement { text: LIST_SQL, params: Vec::new() }
    }

    /// The statement that reads the record with the identifier `tx_id`.
    pub fn get_transaction(&self, tx_id: TxId) -> (st: Statement)
        ensures
            st.is(GET_SQL@, seq![SqlValue::Id(tx_id.0)]),
    {
        let mut params: Vec<SqlValue> = Vec::new();
        params.push(SqlValue::Id(tx_id.0));
        proof {
            assert(params@ =~= seq![SqlValue::Id(tx_id.0)]);
        }
        Statement { text: GET_SQL, params }
    }

    /// The statement that inserts a record for `user_id`: the caller-set
    /// fields in the order of the columns, then the actor.
    pub fn create_transaction(&self, user_id: UserId, new_tx: &ApiTransaction) -> (st: Statement)
        ensures
            st.is(CREATE_SQL@, payload_params(*new_tx).push(SqlValue::Id(user_id.0))),
    {
        let mut params = bind_payload(new_tx);
        params.push(SqlValue::Id(user_id.0));
        Statement { text: CREATE_SQL, params }
    }

    /// The statement that replaces the caller-set fields of the record with
    /// the identifier `tx_id`: the fields in the order of the columns, then
    /// the actor, then the identifier.
    pub fn update_transaction(&self, tx_id: TxId, user_id: UserId, tx: &ApiTransaction) -> (st:
        Statement)
        ensures
            st.is(
                UPDATE_SQL@,
                payload_params(*tx).push(SqlValue::Id(user_id.0)).push(SqlValue::Id(tx_id.0)),
            ),
    {
        let mut params = bind_payload(tx);
        params.push(SqlValue::Id(user_id.0));
        params.push(SqlValue::Id(tx_id.0));
        Statement { text: UPDATE_SQL, params }
    }

    /// The statement that marks the record with the identifier `tx_id` as
    /// deleted: the actor, then the identifier.
    pub fn delete_transaction(&self, tx_id: TxId, user_id: UserId) -> (st: Statement)
        ensures
            st.is(DELETE_SQL@, seq![SqlValue::Id(user_id.0), SqlValue::Id(tx_id.0)]),
    {
        let mut params: Vec<SqlValue> = Vec::new();
        params.push(SqlValue::Id(user_id.0));
        params.push(SqlValue::Id(tx_id.0));
        proof {
            assert(params@ =~= seq![SqlValue::Id(user_id.0), SqlValue::Id(tx_id.0)]);
        }
        Statement { text: DELETE_SQL, params }
    }

    /// What the reply to the listing means: the rows as they came, which
    /// may be none; an engine's failure is a system error.
    pub fn listed(reply: Reply) -> (r: Result<Vec<Transaction>, AppError>)
        ensures
            match reply {
                Ok(rows) => r == Ok::<Vec<Transaction>, AppError>(rows),
                Err(message) => r matches Err(e) && system_error(e, message@),
            },
    {
        match reply {
            Ok(rows) => Ok(rows),
            Err(message) => Err(AppError::from_engine(message)),
        }
    }

    /// What the reply to a read or an update of `tx_id` means.
    pub fn fetched(tx_id: TxId, reply: Reply) -> (r: Result<Transaction, AppError>)
        ensures
            one_row_outcome(tx_id.0, reply, r),
    {
        match reply {
            Ok(rows) => {
                let mut rows = rows;
                match rows.pop() {
                    Some(tx) => Ok(tx),
                    None => Err(not_found(tx_id.0)),
                }
            },
            Err(message) => Err(AppError::from_engine(message)),
        }
    }

    /// What the reply to an insertion means: the row that the engine
    /// returned, or a system error with the engine's message.
    pub fn inserted(reply: Result<Transaction, String>) -> (r: Result<Transaction, AppError>)
        ensures
            match reply {
                Ok(tx) => r == Ok::<Transaction, AppError>(tx),
                Err(message) => r matches Err(e) && system_error(e, message@),
            },
    {
        match reply {
            Ok(tx) => Ok(tx),
            Err(message) => Err(AppError::from_engine(message)),
        }
    }

    /// What the reply to a deletion of `tx_id` means: done where a row came
    /// back, the report that no record has the identifier where none did.
    pub fn deleted(tx_id: TxId, reply: Reply) -> (r: Result<(), AppError>)
        ensures
            match reply {
                Ok(rows) => if rows@.len() == 0 {
                    r matches Err(e) && reports_missing(e, tx_id.0)
                } else {
                    r == Ok::<(), AppError>(())
                },
                Err(message) => r matches Err(e) && system_error(e, message@),
            },
    {
        match PostgresStore::fetched(tx_id, reply) {
            Ok(_) => Ok(()),
            Err(e) => Err(e),
        }
    }
}

} // verus!
