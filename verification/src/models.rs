//! The transaction record, as callers send it and as the ledger keeps it.

use vstd::prelude::*;

use crate::clock::Timestamp;
use crate::money::Money;

verus! {

/// What a caller sends to create or replace a transaction: every field that
/// a caller may set. An absent amount means "not applicable", not zero.
#[derive(Debug, Clone, Copy, PartialEq, Eq, Structural)]
pub struct ApiTransaction {
    pub op_date: Timestamp,
    pub gas_station_id: u128,
    pub card_id: Option<u128>,
    pub contract_id: Option<u128>,
    pub nomenclature_id: u128,
    pub amount: Option<Money>,
    pub stella_sum: Option<Money>,
    pub stella_nds_sum: Option<Money>,
    pub refund: bool,
    pub buy_sum_plan: Option<Money>,
    pub buy_nds_sum_plan: Option<Money>,
    pub buy_sum_fact: Option<Money>,
    pub buy_nds_sum_fact: Option<Money>,
    pub sell_sum_plan: Option<Money>,
    pub sell_nds_sum_plan: Option<Money>,
    pub sell_sum_fact: Option<Money>,
    pub sell_nds_sum_fact: Option<Money>,
    pub implementation_id: Option<u128>,
}

/// A transaction as the ledger keeps it: the caller's fields, the
/// identifier, and the audit fields.
#[derive(Debug, Clone, Copy, PartialEq, Eq, Structural)]
pub struct Transaction {
    pub id: u128,
    pub op_date: Timestamp,
    pub gas_station_id: u128,
    pub card_id: Option<u128>,
    pub contract_id: Option<u128>,
    pub nomenclature_id: u128,
    pub amount: Option<Money>,
    pub stella_sum: Option<Money>,
    pub stella_nds_sum: Option<Money>,
    pub refund: bool,
    pub buy_sum_plan: Option<Money>,
    pub buy_nds_sum_plan: Option<Money>,
    pub buy_sum_fact: Option<Money>,
    pub buy_nds_sum_fact: Option<Money>,
    pub sell_sum_plan: Option<Money>,
    pub sell_nds_sum_plan: Option<Money>,
    pub sell_sum_fact: Option<Money>,
    pub sell_nds_sum_fact: Option<Money>,
    pub implementation_id: Option<u128>,
    pub user_id: u128,
    pub date_created: Timestamp,
    pub date_updated: Option<Timestamp>,
    pub deleted: bool,
}

impl ApiTransaction {
    /// Both hold the same amounts: each absent in both, or the same
    /// mantissa at the same scale.
    pub open spec fn same_amounts(self, other: ApiTransaction) -> bool {
        &&& self.amount == other.amount
        &&& self.stella_sum == other.stella_sum
        &&& self.stella_nds_sum == other.stella_nds_sum
        &&& self.buy_sum_plan == other.buy_sum_plan
        &&& self.buy_nds_sum_plan == other.buy_nds_sum_plan
        &&& self.buy_sum_fact == other.buy_sum_fact
        &&& self.buy_nds_sum_fact == other.buy_nds_sum_fact
        &&& self.sell_sum_plan == other.sell_sum_plan
        &&& self.sell_nds_sum_plan == other.sell_nds_sum_plan
        &&& self.sell_sum_fact == other.sell_sum_fact
        &&& self.sell_nds_sum_fact == other.sell_nds_sum_fact
    }
}

impl Transaction {
    /// The fields of the record that a caller may set.
    pub open spec fn payload(self) -> ApiTransaction {
        ApiTransaction {
            op_date: self.op_date,
            gas_station_id: self.gas_station_id,
            card_id: self.card_id,
            contract_id: self.contract_id,
            nomenclature_id: self.nomenclature_id,
            amount: self.amount,
            stella_sum: self.stella_sum,
            stella_nds_sum: self.stella_nds_sum,
            refund: self.refund,
            buy_sum_plan: self.buy_sum_plan,
            buy_nds_sum_plan: self.buy_nds_sum_plan,
            buy_sum_fact: self.buy_sum_fact,
            buy_nds_sum_fact: self.buy_nds_sum_fact,
            sell_sum_plan: self.sell_sum_plan,
            sell_nds_sum_plan: self.sell_nds_sum_plan,
            sell_sum_fact: self.sell_sum_fact,
            sell_nds_sum_fact: self.sell_nds_sum_fact,
            implementation_id: self.implementation_id,
        }
    }

    /// The record that creation at `now` by `actor` gives the identifier
    /// `id`: the caller's fields, both dates set to `now`, not deleted.
    pub open spec fn created(id: u128, actor: u128, input: ApiTransaction, now: Timestamp)
        -> Transaction {
        Transaction {
            id,
            op_date: input.op_date,
            gas_station_id: input.gas_station_id,
            card_id: input.card_id,
            contract_id: input.contract_id,
            nomenclature_id: input.nomenclature_id,
            amount: input.amount,
            stella_sum: input.stella_sum,
            stella_nds_sum: input.stella_nds_sum,
            refund: input.refund,
            buy_sum_plan: input.buy_sum_plan,
            buy_nds_sum_plan: input.buy_nds_sum_plan,
            buy_sum_fact: input.buy_sum_fact,
            buy_nds_sum_fact: input.buy_nds_sum_fact,
            sell_sum_plan: input.sell_sum_plan,
            sell_nds_sum_plan: input.sell_nds_sum_plan,
            sell_sum_fact: input.sell_sum_fact,
            sell_nds_sum_fact: input.sell_nds_sum_fact,
            implementation_id: input.implementation_id,
            user_id: actor,
            date_created: now,
            date_updated: Some(now),
            deleted: false,
        }
    }

    /// The record after `actor` replaced its fields at `now`: identifier,
    /// creation date and deletion flag stay.
    pub open spec fn replaced(self, actor: u128, input: ApiTransaction, now: Timestamp)
        -> Transaction {
        Transaction {
            id: self.id,
            date_created: self.date_created,
            date_updated: Some(now),
            deleted: self.deleted,
            ..Transaction::created(self.id, actor, input, now)
        }
    }

    /// The record after `actor` deleted it at `now`: only the flag and the
    /// audit fields change.
    pub open spec fn removed(self, actor: u128, now: Timestamp) -> Transaction {
        Transaction { deleted: true, user_id: actor, date_updated: Some(now), ..self }
    }

    /// The record was not updated before it was created.
    pub open spec fn dates_in_order(self) -> bool {
        match self.date_updated {
            Some(t) => self.date_created.le(t),
            None => true,
        }
    }

    /// Builds the record of a new transaction.
    pub fn new(id: u128, actor: u128, input: ApiTransaction, now: Timestamp) -> (tx: Transaction)
        ensures
            tx == Transaction::created(id, actor, input, now),
    {
        Transaction {
            id,
            op_date: input.op_date,
            gas_station_id: input.gas_station_id,
            card_id: input.card_id,
            contract_id: input.contract_id,
            nomenclature_id: input.nomenclature_id,
            amount: input.amount,
            stella_sum: input.stella_sum,
            stella_nds_sum: input.stella_nds_sum,
            refund: input.refund,
            buy_sum_plan: input.buy_sum_plan,
            buy_nds_sum_plan: input.buy_nds_sum_plan,
            buy_sum_fact: input.buy_sum_fact,
            buy_nds_sum_fact: input.buy_nds_sum_fact,
            sell_sum_plan: input.sell_sum_plan,
            sell_nds_sum_plan: input.sell_nds_sum_plan,
            sell_sum_fact: input.sell_sum_fact,
            sell_nds_sum_fact: input.sell_nds_sum_fact,
            implementation_id: input.implementation_id,
            user_id: actor,
            date_created: now,
            date_updated: Some(now),
            deleted: false,
        }
    }

    /// Replaces every field that a caller may set, and stamps the record.
    pub fn replace(&mut self, actor: u128, input: ApiTransaction, now: Timestamp)
        ensures
            *final(self) == old(self).replaced(actor, input, now),
    {
        self.op_date = input.op_date;
        self.gas_station_id = input.gas_station_id;
        self.card_id = input.card_id;
        self.contract_id = input.contract_id;
        self.nomenclature_id = input.nomenclature_id;
        self.amount = input.amount;
        self.stella_sum = input.stella_sum;
        self.stella_nds_sum = input.stella_nds_sum;
        self.refund = input.refund;
        self.buy_sum_plan = input.buy_sum_plan;
        self.buy_nds_sum_plan = input.buy_nds_sum_plan;
        self.buy_sum_fact = input.buy_sum_fact;
        self.buy_nds_sum_fact = input.buy_nds_sum_fact;
        self.sell_sum_plan = input.sell_sum_plan;
        self.sell_nds_sum_plan = input.sell_nds_sum_plan;
        self.sell_sum_fact = input.sell_sum_fact;
        self.sell_nds_sum_fact = input.sell_nds_sum_fact;
        self.implementation_id = input.implementation_id;
        self.user_id = actor;
        self.date_updated = Some(now);
    }

    /// Marks the record deleted, and stamps it.
    pub fn remove(&mut self, actor: u128, now: Timestamp)
        ensures
            *final(self) == old(self).removed(actor, now),
    {
        self.deleted = true;
        self.user_id = actor;
        self.date_updated = Some(now);
    }
}

} // verus!
