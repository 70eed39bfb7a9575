//! The rules that a transaction has to meet before a store takes it.

use vstd::prelude::*;
use vstd::string::*;

use crate::clock::Timestamp;
use crate::dto::bad_body_reason_text;
use crate::errors::{bad_request, AppError};
use crate::ident::{parse_id, uuid_parse};
use crate::models::ApiTransaction;
use crate::money::Money;

verus! {

/// The fields that a caller may set, in the order in which they are checked.
#[derive(Debug, Clone, Copy, PartialEq, Eq, Structural)]
pub enum Field {
    OpDate,
    GasStationId,
    CardId,
    ContractId,
    NomenclatureId,
    Amount,
    StellaSum,
    StellaNdsSum,
    Refund,
    BuySumPlan,
    BuyNdsSumPlan,
    BuySumFact,
    BuyNdsSumFact,
    SellSumPlan,
    SellNdsSumPlan,
    SellSumFact,
    SellNdsSumFact,
    ImplementationId,
}

impl Field {
    /// The field's name, as callers write it.
    pub open spec fn name_of(self) -> Seq<char> {
        match self {
            Field::OpDate => "op_date"@,
            Field::GasStationId => "gas_station_id"@,
            Field::CardId => "card_id"@,
            Field::ContractId => "contract_id"@,
            Field::NomenclatureId => "nomenclature_id"@,
            Field::Amount => "amount"@,
            Field::StellaSum => "stella_sum"@,
            Field::StellaNdsSum => "stella_nds_sum"@,
            Field::Refund => "refund"@,
            Field::BuySumPlan => "buy_sum_plan"@,
            Field::BuyNdsSumPlan => "buy_nds_sum_plan"@,
            Field::BuySumFact => "buy_sum_fact"@,
            Field::BuyNdsSumFact => "buy_nds_sum_fact"@,
            Field::SellSumPlan => "sell_sum_plan"@,
            Field::SellNdsSumPlan => "sell_nds_sum_plan"@,
            Field::SellSumFact => "sell_sum_fact"@,
            Field::SellNdsSumFact => "sell_nds_sum_fact"@,
            Field::ImplementationId => "implementation_id"@,
        }
    }

    /// The field's name, as callers write it.
    pub fn name(&self) -> (text: &'static str)
        ensures
            text@ == self.name_of(),
    {
        match self {
            Field::OpDate => "op_date",
            Field::GasStationId => "gas_station_id",
            Field::CardId => "card_id",
            Field::ContractId => "contract_id",
            Field::NomenclatureId => "nomenclature_id",
            Field::Amount => "amount",
            Field::StellaSum => "stella_sum",
            Field::StellaNdsSum => "stella_nds_sum",
            Field::Refund => "refund",
            Field::BuySumPlan => "buy_sum_plan",
            Field::BuyNdsSumPlan => "buy_nds_sum_plan",
            Field::BuySumFact => "buy_sum_fact",
            Field::BuyNdsSumFact => "buy_nds_sum_fact",
            Field::SellSumPlan => "sell_sum_plan",
            Field::SellNdsSumPlan => "sell_nds_sum_plan",
            Field::SellSumFact => "sell_sum_fact",
            Field::SellNdsSumFact => "sell_nds_sum_fact",
            Field::ImplementationId => "implementation_id",
        }
    }
}

/// What is wrong with a field.
#[derive(Debug, Clone, Copy, PartialEq, Eq, Structural)]
pub enum Fault {
    /// A required field is absent.
    Missing(Field),
    /// The field's text is no identifier.
    BadId(Field),
    /// The field's number is not finite, or no decimal can hold it.
    BadAmount(Field),
}

impl Fault {
    /// The reason that the caller is given: what is wrong, and with which
    /// field.
    pub open spec fn reason(self) -> Seq<char> {
        match self {
            Fault::Missing(field) => "missing field `"@ + field.name_of() + "`"@,
            Fault::BadId(field) => "field `"@ + field.name_of() + "` is not a valid identifier"@,
            Fault::BadAmount(field) => "field `"@ + field.name_of()
                + "` is not a finite decimal number"@,
        }
    }

    /// The bad-request error that reports the fault.
    pub fn report(&self) -> (e: AppError)
        ensures
            bad_request(e, bad_body_reason_text(self.reason())),
    {
        let head = String::from_str("Передано некорректное тело запроса: ");
        let text = match self {
            Fault::Missing(field) => head.concat("missing field `").concat(field.name()).concat(
                "`",
            ),
            Fault::BadId(field) => head.concat("field `").concat(field.name()).concat(
                "` is not a valid identifier",
            ),
            Fault::BadAmount(field) => head.concat("field `").concat(field.name()).concat(
                "` is not a finite decimal number",
            ),
        };
        proof {
            assert(text@ =~= bad_body_reason_text(self.reason()));
        }
        AppError::BadRequest(text)
    }
}

/// An amount as it arrives: none, an exact decimal, or a number that is
/// not finite.
#[derive(Debug, Clone, Copy, PartialEq, Eq, Structural)]
pub enum AmountInput {
    Absent,
    Exact(Money),
    NotFinite,
}

/// A transaction as it arrives, before anything is known of it: any field
/// may be absent, and identifiers are still text.
#[derive(Debug)]
pub struct TransactionDraft {
    pub op_date: Option<Timestamp>,
    pub gas_station_id: Option<String>,
    pub card_id: Option<String>,
    pub contract_id: Option<String>,
    pub nomenclature_id: Option<String>,
    pub amount: AmountInput,
    pub stella_sum: AmountInput,
    pub stella_nds_sum: AmountInput,
    pub refund: Option<bool>,
    pub buy_sum_plan: AmountInput,
    pub buy_nds_sum_plan: AmountInput,
    pub buy_sum_fact: AmountInput,
    pub buy_nds_sum_fact: AmountInput,
    pub sell_sum_plan: AmountInput,
    pub sell_nds_sum_plan: AmountInput,
    pub sell_sum_fact: AmountInput,
    pub sell_nds_sum_fact: AmountInput,
    pub implementation_id: Option<String>,
}

/// A required value: present, or the field is missing.
pub open spec fn required<T>(field: Field, value: Option<T>) -> Result<T, Fault> {
    match value {
        Some(v) => Ok(v),
        None => Err(Fault::Missing(field)),
    }
}

/// A required identifier: present and the text of an identifier.
pub open spec fn required_id(field: Field, value: Option<String>) -> Result<u128, Fault> {
    match value {
        Some(text) => match uuid_parse(text@) {
            Some(id) => Ok(id),
            None => Err(Fault::BadId(field)),
        },
        None => Err(Fault::Missing(field)),
    }
}

/// An optional identifier: absent, or the text of an identifier.
pub open spec fn optional_id(field: Field, value: Option<String>) -> Result<Option<u128>, Fault> {
    match value {
        Some(text) => match uuid_parse(text@) {
            Some(id) => Ok(Some(id)),
            None => Err(Fault::BadId(field)),
        },
        None => Ok(None),
    }
}

/// An optional amount: absent, or a decimal that can be stored.
pub open spec fn amount(field: Field, value: AmountInput) -> Result<Option<Money>, Fault> {
    match value {
        AmountInput::Absent => Ok(None),
        AmountInput::Exact(m) => if m.valid() {
            Ok(Some(m))
        } else {
            Err(Fault::BadAmount(field))
        },
        AmountInput::NotFinite => Err(Fault::BadAmount(field)),
    }
}

/// The fault of a check, if it found one.
pub open spec fn fault_of<T>(checked: Result<T, Fault>) -> Option<Fault> {
    match checked {
        Ok(_) => None,
        Err(fault) => Some(fault),
    }
}

/// The first fault of a row of checks, if any found one.
pub open spec fn first_some(checks: Seq<Option<Fault>>) -> Option<Fault>
    decreases checks.len(),
{
    if checks.len() == 0 {
        None
    } else if checks[0].is_some() {
        checks[0]
    } else {
        first_some(checks.drop_first())
    }
}

/// The first fault is that of the first check that found one; there is
/// none where no check found one.
pub proof fn lemma_first_some(checks: Seq<Option<Fault>>, k: int)
    requires
        0 <= k <= checks.len(),
        forall|j: int| 0 <= j < k ==> (#[trigger] checks[j]).is_none(),
        k < checks.len() ==> checks[k].is_some(),
    ensures
        first_some(checks) == if k < checks.len() {
            checks[k]
        } else {
            None
        },
    decreases checks.len(),
{
    if checks.len() > 0 && k > 0 {
        assert(checks[0].is_none());
        let rest = checks.drop_first();
        assert forall|j: int| 0 <= j < k - 1 implies (#[trigger] rest[j]).is_none() by {
            assert(rest[j] == checks[j + 1]);
        }
        lemma_first_some(rest, k - 1);
    }
}

/// Takes a required value, or reports the field as missing.
fn check_required<T>(field: Field, value: Option<T>) -> (r: Result<T, Fault>)
    ensures
        r == required(field, value),
{
    match value {
        Some(v) => Ok(v),
        None => Err(Fault::Missing(field)),
    }
}

/// Parses a required identifier.
fn check_required_id(field: Field, value: &Option<String>) -> (r: Result<u128, Fault>)
    ensures
        r == required_id(field, *value),
{
    match value {
        Some(text) => match parse_id(text.as_str()) {
            Some(id) => Ok(id),
            None => Err(Fault::BadId(field)),
        },
        None => Err(Fault::Missing(field)),
    }
}

/// Parses an identifier, where there is one.
fn check_optional_id(field: Field, value: &Option<String>) -> (r: Result<Option<u128>, Fault>)
    ensures
        r == optional_id(field, *value),
{
    match value {
        Some(text) => match parse_id(text.as_str()) {
            Some(id) => Ok(Some(id)),
            None => Err(Fault::BadId(field)),
        },
        None => Ok(None),
    }
}

/// Takes an amount that can be stored, where there is one.
fn check_amount(field: Field, value: AmountInput) -> (r: Result<Option<Money>, Fault>)
    ensures
        r == amount(field, value),
{
    match value {
        AmountInput::Absent => Ok(None),
        AmountInput::Exact(m) => if m.is_valid() {
            Ok(Some(m))
        } else {
            Err(Fault::BadAmount(field))
        },
        AmountInput::NotFinite => Err(Fault::BadAmount(field)),
    }
}

impl TransactionDraft {
    /// What the check of each field found, in the order of the fields.
    pub open spec fn checks(self) -> Seq<Option<Fault>> {
        seq![
            fault_of(required(Field::OpDate, self.op_date)),
            fault_of(required_id(Field::GasStationId, self.gas_station_id)),
            fault_of(optional_id(Field::CardId, self.card_id)),
            fault_of(optional_id(Field::ContractId, self.contract_id)),
            fault_of(required_id(Field::NomenclatureId, self.nomenclature_id)),
            fault_of(amount(Field::Amount, self.amount)),
            fault_of(amount(Field::StellaSum, self.stella_sum)),
            fault_of(amount(Field::StellaNdsSum, self.stella_nds_sum)),
            fault_of(required(Field::Refund, self.refund)),
            fault_of(amount(Field::BuySumPlan, self.buy_sum_plan)),
            fault_of(amount(Field::BuyNdsSumPlan, self.buy_nds_sum_plan)),
            fault_of(amount(Field::BuySumFact, self.buy_sum_fact)),
            fault_of(amount(Field::BuyNdsSumFact, self.buy_nds_sum_fact)),
            fault_of(amount(Field::SellSumPlan, self.sell_sum_plan)),
            fault_of(amount(Field::SellNdsSumPlan, self.sell_nds_sum_plan)),
            fault_of(amount(Field::SellSumFact, self.sell_sum_fact)),
            fault_of(amount(Field::SellNdsSumFact, self.sell_nds_sum_fact)),
            fault_of(optional_id(Field::ImplementationId, self.implementation_id)),
        ]
    }

    /// The first fault of the draft, in the order of its fields; none where
    /// the draft is a transaction.
    pub open spec fn first_fault(self) -> Option<Fault> {
        first_some(self.checks())
    }

    /// The transaction that a draft without fault holds.
    pub open spec fn accepted(self) -> ApiTransaction {
        ApiTransaction {
            op_date: required(Field::OpDate, self.op_date).unwrap(),
            gas_station_id: required_id(Field::GasStationId, self.gas_station_id).unwrap(),
            card_id: optional_id(Field::CardId, self.card_id).unwrap(),
            contract_id: optional_id(Field::ContractId, self.contract_id).unwrap(),
            nomenclature_id: required_id(Field::NomenclatureId, self.nomenclature_id).unwrap(),
            amount: amount(Field::Amount, self.amount).unwrap(),
            stella_sum: amount(Field::StellaSum, self.stella_sum).unwrap(),
            stella_nds_sum: amount(Field::StellaNdsSum, self.stella_nds_sum).unwrap(),
            refund: required(Field::Refund, self.refund).unwrap(),
            buy_sum_plan: amount(Field::BuySumPlan, self.buy_sum_plan).unwrap(),
            buy_nds_sum_plan: amount(Field::BuyNdsSumPlan, self.buy_nds_sum_plan).unwrap(),
            buy_sum_fact: amount(Field::BuySumFact, self.buy_sum_fact).unwrap(),
            buy_nds_sum_fact: amount(Field::BuyNdsSumFact, self.buy_nds_sum_fact).unwrap(),
            sell_sum_plan: amount(Field::SellSumPlan, self.sell_sum_plan).unwrap(),
            sell_nds_sum_plan: amount(Field::SellNdsSumPlan, self.sell_nds_sum_plan).unwrap(),
            sell_sum_fact: amount(Field::SellSumFact, self.sell_sum_fact).unwrap(),
            sell_nds_sum_fact: amount(Field::SellNdsSumFact, self.sell_nds_sum_fact).unwrap(),
            implementation_id: optional_id(Field::ImplementationId, self.implementation_id).unwrap(),
        }
    }
}

impl ApiTransaction {
    /// Every amount that is present fits a 96-bit decimal.
    pub open spec fn amounts_valid(self) -> bool {
        &&& (self.amount matches Some(m) ==> m.valid())
        &&& (self.stella_sum matches Some(m) ==> m.valid())
        &&& (self.stella_nds_sum matches Some(m) ==> m.valid())
        &&& (self.buy_sum_plan matches Some(m) ==> m.valid())
        &&& (self.buy_nds_sum_plan matches Some(m) ==> m.valid())
        &&& (self.buy_sum_fact matches Some(m) ==> m.valid())
        &&& (self.buy_nds_sum_fact matches Some(m) ==> m.valid())
        &&& (self.sell_sum_plan matches Some(m) ==> m.valid())
        &&& (self.sell_nds_sum_plan matches Some(m) ==> m.valid())
        &&& (self.sell_sum_fact matches Some(m) ==> m.valid())
        &&& (self.sell_nds_sum_fact matches Some(m) ==> m.valid())
    }

    /// Checks a draft field by field: required fields are present,
    /// identifiers are the text of identifiers, amounts are decimals that
    /// can be stored. The first fault, in the order of the fields, is
    /// reported as a bad request that names the field.
    pub fn validate(draft: &TransactionDraft) -> (r: Result<ApiTransaction, AppError>)
        ensures
            match draft.first_fault() {
                None => r == Ok::<ApiTransaction, AppError>(draft.accepted())
                    && draft.accepted().amounts_valid(),
                Some(fault) => r matches Err(e) && bad_request(
                    e,
                    bad_body_reason_text(fault.reason()),
                ),
            },
    {
        let op_date = match check_required(Field::OpDate, draft.op_date) {
            Ok(v) => v,
            Err(fault) => {
                proof {
                    lemma_first_some(draft.checks(), 0);
                }
                return Err(fault.report());
            },
        };
        let gas_station_id = match check_required_id(Field::GasStationId, &draft.gas_station_id) {
            Ok(v) => v,
            Err(fault) => {
                proof {
                    lemma_first_some(draft.checks(), 1);
                }
                return Err(fault.report());
            },
        };
        let card_id = match check_optional_id(Field::CardId, &draft.card_id) {
            Ok(v) => v,
            Err(fault) => {
                proof {
                    lemma_first_some(draft.checks(), 2);
                }
                return Err(fault.report());
            },
        };
        let contract_id = match check_optional_id(Field::ContractId, &draft.contract_id) {
            Ok(v) => v,
            Err(fault) => {
                proof {
                    lemma_first_some(draft.checks(), 3);
                }
                return Err(fault.report());
            },
        };
        let nomenclature_id = match check_required_id(Field::NomenclatureId, &draft.nomenclature_id) {
            Ok(v) => v,
            Err(fault) => {
                proof {
                    lemma_first_some(draft.checks(), 4);
                }
                return Err(fault.report());
            },
        };
        let amount = match check_amount(Field::Amount, draft.amount) {
            Ok(v) => v,
            Err(fault) => {
                proof {
                    lemma_first_some(draft.checks(), 5);
                }
                return Err(fault.report());
            },
        };
        let stella_sum = match check_amount(Field::StellaSum, draft.stella_sum) {
            Ok(v) => v,
            Err(fault) => {
                proof {
                    lemma_first_some(draft.checks(), 6);
                }
                return Err(fault.report());
            },
        };
        let stella_nds_sum = match check_amount(Field::StellaNdsSum, draft.stella_nds_sum) {
            Ok(v) => v,
            Err(fault) => {
                proof {
                    lemma_first_some(draft.checks(), 7);
                }
                return Err(fault.report());
            },
        };
        let refund = match check_required(Field::Refund, draft.refund) {
            Ok(v) => v,
            Err(fault) => {
                proof {
                    lemma_first_some(draft.checks(), 8);
                }
                return Err(fault.report());
            },
        };
        let buy_sum_plan = match check_amount(Field::BuySumPlan, draft.buy_sum_plan) {
            Ok(v) => v,
            Err(fault) => {
                proof {
                    lemma_first_some(draft.checks(), 9);
                }
                return Err(fault.report());
            },
        };
        let buy_nds_sum_plan = match check_amount(Field::BuyNdsSumPlan, draft.buy_nds_sum_plan) {
            Ok(v) => v,
            Err(fault) => {
                proof {
                    lemma_first_some(draft.checks(), 10);
                }
                return Err(fault.report());
            },
        };
        let buy_sum_fact = match check_amount(Field::BuySumFact, draft.buy_sum_fact) {
            Ok(v) => v,
            Err(fault) => {
                proof {
                    lemma_first_some(draft.checks(), 11);
                }
                return Err(fault.report());
            },
        };
        let buy_nds_sum_fact = match check_amount(Field::BuyNdsSumFact, draft.buy_nds_sum_fact) {
            Ok(v) => v,
            Err(fault) => {
                proof {
                    lemma_first_some(draft.checks(), 12);
                }
                return Err(fault.report());
            },
        };
        let sell_sum_plan = match check_amount(Field::SellSumPlan, draft.sell_sum_plan) {
            Ok(v) => v,
            Err(fault) => {
                proof {
                    lemma_first_some(draft.checks(), 13);
                }
                return Err(fault.report());
            },
        };
        let sell_nds_sum_plan = match check_amount(Field::SellNdsSumPlan, draft.sell_nds_sum_plan) {
            Ok(v) => v,
            Err(fault) => {
                proof {
                    lemma_first_some(draft.checks(), 14);
                }
                return Err(fault.report());
            },
        };
        let sell_sum_fact = match check_amount(Field::SellSumFact, draft.sell_sum_fact) {
            Ok(v) => v,
            Err(fault) => {
                proof {
                    lemma_first_some(draft.checks(), 15);
                }
                return Err(fault.report());
            },
        };
        let sell_nds_sum_fact = match check_amount(Field::SellNdsSumFact, draft.sell_nds_sum_fact) {
            Ok(v) => v,
            Err(fault) => {
                proof {
                    lemma_first_some(draft.checks(), 16);
                }
                return Err(fault.report());
            },
        };
        let implementation_id = match check_optional_id(Field::ImplementationId, &draft.implementation_id) {
            Ok(v) => v,
            Err(fault) => {
                proof {
                    lemma_first_some(draft.checks(), 17);
                }
                return Err(fault.report());
            },
        };
        proof {
            lemma_first_some(draft.checks(), 18);
        }
        Ok(
            ApiTransaction {
                op_date,
                gas_station_id,
                card_id,
                contract_id,
                nomenclature_id,
                amount,
                stella_sum,
                stella_nds_sum,
                refund,
                buy_sum_plan,
                buy_nds_sum_plan,
                buy_sum_fact,
                buy_nds_sum_fact,
                sell_sum_plan,
                sell_nds_sum_plan,
                sell_sum_fact,
                sell_nds_sum_fact,
                implementation_id,
            },
        )
    }
}

} // verus!
