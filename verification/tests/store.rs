use fuel_ledger::{
    ApiTransaction, AppError, MockStore, Money, Timestamp, Transaction, TxId, UserId,
};
use rust_decimal::prelude::{FromPrimitive, ToPrimitive};
use rust_decimal::Decimal;

const STATION: u128 = 0x11111111_1111_4111_8111_111111111111;
const FUEL: u128 = 0x22222222_2222_4222_8222_222222222222;
const ALICE: u128 = 0xaaaaaaaa_aaaa_4aaa_8aaa_aaaaaaaaaaaa;
const BOB: u128 = 0xbbbbbbbb_bbbb_4bbb_8bbb_bbbbbbbbbbbb;

fn at(secs: i64) -> Timestamp {
    Timestamp { secs, nanos: 0 }
}

fn payload(amount: Option<Money>) -> ApiTransaction {
    ApiTransaction {
        op_date: at(1_700_000_000),
        gas_station_id: STATION,
        card_id: None,
        contract_id: None,
        nomenclature_id: FUEL,
        amount,
        stella_sum: None,
        stella_nds_sum: None,
        refund: false,
        buy_sum_plan: None,
        buy_nds_sum_plan: None,
        buy_sum_fact: None,
        buy_nds_sum_fact: None,
        sell_sum_plan: None,
        sell_nds_sum_plan: None,
        sell_sum_fact: None,
        sell_nds_sum_fact: None,
        implementation_id: None,
    }
}

fn full_payload() -> ApiTransaction {
    ApiTransaction {
        op_date: at(1_650_000_000),
        gas_station_id: FUEL,
        card_id: Some(1),
        contract_id: Some(2),
        nomenclature_id: STATION,
        amount: Some(Money { mantissa: 1, scale: 0 }),
        stella_sum: Some(Money { mantissa: 2, scale: 1 }),
        stella_nds_sum: Some(Money { mantissa: 3, scale: 2 }),
        refund: true,
        buy_sum_plan: Some(Money { mantissa: 4, scale: 3 }),
        buy_nds_sum_plan: Some(Money { mantissa: 5, scale: 4 }),
        buy_sum_fact: Some(Money { mantissa: 6, scale: 0 }),
        buy_nds_sum_fact: Some(Money { mantissa: 7, scale: 1 }),
        sell_sum_plan: Some(Money { mantissa: 8, scale: 2 }),
        sell_nds_sum_plan: Some(Money { mantissa: 9, scale: 3 }),
        sell_sum_fact: Some(Money { mantissa: -10, scale: 4 }),
        sell_nds_sum_fact: Some(Money { mantissa: 11, scale: 0 }),
        implementation_id: Some(3),
    }
}

fn missing(id: u128) -> AppError {
    AppError::NotFound(format!("Transaction with id {} not found", uuid::Uuid::from_u128(id)))
}

#[test]
fn new_store_is_empty() {
    let store = MockStore::new();
    assert_eq!(store.get_transactions_list(), Ok(vec![]));
}

#[test]
fn create_then_delete_scenario() {
    let mut store = MockStore::new();
    let amount = Money { mantissa: 1250, scale: 2 };
    let tx = store.create_transaction(UserId(ALICE), payload(Some(amount))).unwrap();
    assert_eq!(tx.amount, Some(amount));
    assert_eq!(tx.stella_sum, None);
    assert!(!tx.deleted);
    assert!(!tx.refund);
    assert_eq!(tx.user_id, ALICE);
    assert_eq!(tx.date_updated, Some(tx.date_created));
    assert_eq!(uuid::Uuid::from_u128(tx.id).get_version_num(), 4);

    assert_eq!(store.delete_transaction(TxId(tx.id), UserId(BOB)), Ok(()));
    let read = store.get_transaction(TxId(tx.id)).unwrap();
    assert!(read.deleted);
    assert_eq!(read.user_id, BOB);
    assert_eq!(read.amount, Some(amount));
    assert_eq!(read.date_created, tx.date_created);
    assert!(read.date_updated.is_some());
}

#[test]
fn created_record_is_read_back_equal() {
    let mut store = MockStore::new();
    let tx = store.create_transaction(UserId(ALICE), full_payload()).unwrap();
    assert_eq!(store.get_transaction(TxId(tx.id)), Ok(tx));
}

#[test]
fn create_reads_the_clock() {
    let before = chrono::Utc::now().timestamp();
    let mut store = MockStore::new();
    let tx = store.create_transaction(UserId(ALICE), payload(None)).unwrap();
    let after = chrono::Utc::now().timestamp();
    assert!(before <= tx.date_created.secs && tx.date_created.secs <= after);
    assert!(tx.date_created.nanos < 2_000_000_000);
}

#[test]
fn create_draws_distinct_identifiers() {
    let mut store = MockStore::new();
    let a = store.create_transaction(UserId(ALICE), payload(None)).unwrap();
    let b = store.create_transaction(UserId(ALICE), payload(None)).unwrap();
    assert_ne!(a.id, b.id);
}

#[test]
fn create_at_builds_the_exact_record() {
    let mut store = MockStore::new();
    let input = full_payload();
    let tx = store.create_at(TxId(42), UserId(ALICE), input, at(100));
    let expected = Transaction {
        id: 42,
        op_date: input.op_date,
        gas_station_id: input.gas_station_id,
        card_id: input.card_id,
        contract_id: input.contract_id,
        nomenclature_id: input.nomenclature_id,
        amount: input.amount,
        stella_sum: input.stella_sum,
        stella_nds_sum: input.stella_nds_sum,
        refund: input.refund,
        buy_sum_plan: input.buy_sum_plan,
        buy_nds_sum_plan: input.buy_nds_sum_plan,
        buy_sum_fact: input.buy_sum_fact,
        buy_nds_sum_fact: input.buy_nds_sum_fact,
        sell_sum_plan: input.sell_sum_plan,
        sell_nds_sum_plan: input.sell_nds_sum_plan,
        sell_sum_fact: input.sell_sum_fact,
        sell_nds_sum_fact: input.sell_nds_sum_fact,
        implementation_id: input.implementation_id,
        user_id: ALICE,
        date_created: at(100),
        date_updated: Some(at(100)),
        deleted: false,
    };
    assert_eq!(tx, expected);
    assert_eq!(store.get_transaction(TxId(42)), Ok(expected));
    assert_eq!(store.get_transactions_list(), Ok(vec![expected]));
}

#[test]
fn update_replaces_fields_and_keeps_creation() {
    let mut store = MockStore::new();
    let first = store.create_at(TxId(1), UserId(ALICE), payload(None), at(100));
    let other = store.create_at(TxId(2), UserId(ALICE), payload(None), at(101));
    let input = full_payload();
    let updated = store.update_at(TxId(1), UserId(BOB), input, at(200)).unwrap();
    let expected = Transaction {
        id: 1,
        user_id: BOB,
        date_created: first.date_created,
        date_updated: Some(at(200)),
        deleted: false,
        ..Transaction::new(1, BOB, input, at(200))
    };
    assert_eq!(updated, expected);
    assert_eq!(updated.amount, input.amount);
    assert_eq!(updated.sell_sum_fact, Some(Money { mantissa: -10, scale: 4 }));
    assert_eq!(updated.refund, true);
    assert_eq!(updated.date_created, at(100));
    assert_eq!(store.get_transaction(TxId(1)), Ok(expected));
    assert_eq!(store.get_transaction(TxId(2)), Ok(other));
    assert_eq!(store.get_transactions_list(), Ok(vec![expected, other]));
}

#[test]
fn update_with_the_clock() {
    let mut store = MockStore::new();
    let tx = store.create_transaction(UserId(ALICE), payload(None)).unwrap();
    let input = full_payload();
    let updated = store.update_transaction(TxId(tx.id), UserId(BOB), input).unwrap();
    assert_eq!(updated.id, tx.id);
    assert_eq!(updated.user_id, BOB);
    assert_eq!(updated.date_created, tx.date_created);
    assert_eq!(updated.card_id, Some(1));
    assert_eq!(updated.amount, input.amount);
    let stamp = updated.date_updated.unwrap();
    assert!(tx.date_created.not_after(&stamp));
    assert_eq!(store.get_transaction(TxId(tx.id)), Ok(updated));
}

#[test]
fn update_keeps_the_deletion() {
    let mut store = MockStore::new();
    store.create_at(TxId(1), UserId(ALICE), payload(None), at(100));
    store.delete_at(TxId(1), UserId(ALICE), at(150)).unwrap();
    let updated = store.update_at(TxId(1), UserId(BOB), full_payload(), at(200)).unwrap();
    assert!(updated.deleted);
}

#[test]
fn delete_marks_and_stamps_only() {
    let mut store = MockStore::new();
    let input = full_payload();
    let tx = store.create_at(TxId(5), UserId(ALICE), input, at(100));
    assert_eq!(store.delete_at(TxId(5), UserId(BOB), at(300)), Ok(()));
    let expected = Transaction { deleted: true, user_id: BOB, date_updated: Some(at(300)), ..tx };
    assert_eq!(store.get_transaction(TxId(5)), Ok(expected));
    assert_eq!(store.get_transactions_list(), Ok(vec![expected]));
}

#[test]
fn deleted_records_stay_listed() {
    let mut store = MockStore::new();
    store.create_at(TxId(1), UserId(ALICE), payload(None), at(1));
    store.create_at(TxId(2), UserId(ALICE), payload(None), at(2));
    store.delete_at(TxId(1), UserId(ALICE), at(3)).unwrap();
    let list = store.get_transactions_list().unwrap();
    assert_eq!(list.len(), 2);
    assert!(list[0].deleted);
    assert!(!list[1].deleted);
}

#[test]
fn unknown_identifier_is_not_found() {
    let mut store = MockStore::new();
    store.create_at(TxId(1), UserId(ALICE), payload(None), at(1));
    let before = store.get_transactions_list();
    let unused = uuid::Uuid::new_v4().as_u128();
    assert_eq!(store.get_transaction(TxId(unused)), Err(missing(unused)));
    assert_eq!(store.update_transaction(TxId(unused), UserId(BOB), full_payload()), Err(missing(unused)));
    assert_eq!(store.update_at(TxId(unused), UserId(BOB), full_payload(), at(9)), Err(missing(unused)));
    assert_eq!(store.delete_transaction(TxId(unused), UserId(BOB)), Err(missing(unused)));
    assert_eq!(store.delete_at(TxId(unused), UserId(BOB), at(9)), Err(missing(unused)));
    assert_eq!(store.get_transactions_list(), before);
}

#[test]
fn not_found_message_names_the_identifier() {
    let store = MockStore::new();
    let id: u128 = 0x550e8400_e29b_41d4_a716_446655440000;
    let err = store.get_transaction(TxId(id)).unwrap_err();
    assert_eq!(
        err,
        AppError::NotFound(String::from(
            "Transaction with id 550e8400-e29b-41d4-a716-446655440000 not found"
        ))
    );
    assert_eq!(err.status(), 404);
}

#[test]
fn list_is_in_order_of_creation() {
    let mut store = MockStore::new();
    for _ in 0..20 {
        store.create_transaction(UserId(ALICE), payload(None)).unwrap();
    }
    let list = store.get_transactions_list().unwrap();
    assert_eq!(list.len(), 20);
    for pair in list.windows(2) {
        assert!(pair[0].date_created.not_after(&pair[1].date_created));
    }
}

#[test]
fn list_keeps_insertion_order() {
    let mut store = MockStore::new();
    let a = store.create_at(TxId(3), UserId(ALICE), payload(None), at(10));
    let b = store.create_at(TxId(1), UserId(ALICE), payload(None), at(20));
    let c = store.create_at(TxId(2), UserId(ALICE), payload(None), at(30));
    assert_eq!(store.get_transactions_list(), Ok(vec![a, b, c]));
}

#[test]
fn lookup_takes_the_first_record_of_an_identifier() {
    let mut store = MockStore::new();
    let a = store.create_at(TxId(1), UserId(ALICE), payload(None), at(10));
    let b = store.create_at(TxId(1), UserId(BOB), full_payload(), at(20));
    assert_eq!(store.get_transaction(TxId(1)), Ok(a));
    store.delete_at(TxId(1), UserId(BOB), at(30)).unwrap();
    let list = store.get_transactions_list().unwrap();
    assert!(list[0].deleted);
    assert_eq!(list[1], b);
}

#[test]
fn amounts_survive_the_float_boundary() {
    let mut store = MockStore::new();
    for value in [12.50_f64, 0.0001, 1234567.8901, -3.75, 0.0] {
        let decimal = Decimal::from_f64(value).unwrap();
        let amount = Money::new(decimal.mantissa(), decimal.scale()).unwrap();
        let tx = store.create_transaction(UserId(ALICE), payload(Some(amount))).unwrap();
        let read = store.get_transaction(TxId(tx.id)).unwrap().amount.unwrap();
        assert_eq!(read, amount);
        let back = Decimal::from_i128_with_scale(read.mantissa, read.scale);
        assert_eq!(back, decimal);
        assert_eq!(back.to_f64(), Some(value));
    }
}

#[test]
fn close_keeps_the_records() {
    let mut store = MockStore::new();
    let a = store.create_at(TxId(1), UserId(ALICE), payload(None), at(10));
    store.close();
    store.close();
    assert_eq!(store.get_transaction(TxId(1)), Ok(a));
}

#[test]
fn timestamps_are_ordered_by_second_then_nanosecond() {
    let a = Timestamp { secs: 5, nanos: 999_999_999 };
    let b = Timestamp { secs: 6, nanos: 0 };
    let c = Timestamp { secs: 6, nanos: 1 };
    assert!(a.not_after(&b));
    assert!(b.not_after(&c));
    assert!(!c.not_after(&b));
    assert!(!b.not_after(&a));
    assert!(b.not_after(&b));
    assert!(Timestamp { secs: -1, nanos: 5 }.not_after(&Timestamp { secs: 0, nanos: 0 }));
}

#[test]
fn money_fits_a_96_bit_decimal() {
    let limit: i128 = 79228162514264337593543950336;
    assert_eq!(Money::new(1250, 2), Some(Money { mantissa: 1250, scale: 2 }));
    assert_eq!(Money::new(0, 28), Some(Money { mantissa: 0, scale: 28 }));
    assert_eq!(Money::new(0, 29), None);
    assert_eq!(Money::new(limit - 1, 0), Some(Money { mantissa: limit - 1, scale: 0 }));
    assert_eq!(Money::new(limit, 0), None);
    assert_eq!(Money::new(-(limit - 1), 4), Some(Money { mantissa: -(limit - 1), scale: 4 }));
    assert_eq!(Money::new(-limit, 4), None);
    assert!(Money { mantissa: 5, scale: 28 }.is_valid());
    assert!(!Money { mantissa: 5, scale: 29 }.is_valid());
    assert_eq!(Decimal::MAX.mantissa(), limit - 1);
    assert_eq!(Decimal::MIN.mantissa(), -(limit - 1));
}

#[test]
fn replace_changes_the_caller_fields_and_the_stamp() {
    let mut tx = Transaction::new(9, ALICE, payload(None), at(100));
    tx.replace(BOB, full_payload(), at(130));
    assert_eq!(tx.id, 9);
    assert_eq!(tx.user_id, BOB);
    assert_eq!(tx.date_created, at(100));
    assert_eq!(tx.date_updated, Some(at(130)));
    assert_eq!(tx.op_date, at(1_650_000_000));
    assert_eq!(tx.gas_station_id, FUEL);
    assert_eq!(tx.nomenclature_id, STATION);
    assert_eq!(tx.buy_nds_sum_plan, Some(Money { mantissa: 5, scale: 4 }));
    assert_eq!(tx.implementation_id, Some(3));
    assert!(tx.refund);
    assert!(!tx.deleted);
}

#[test]
fn remove_changes_the_flag_and_the_stamp() {
    let before = Transaction::new(9, ALICE, full_payload(), at(100));
    let mut tx = before;
    tx.remove(BOB, at(140));
    assert_eq!(tx, Transaction { deleted: true, user_id: BOB, date_updated: Some(at(140)), ..before });
    tx.remove(ALICE, at(150));
    assert!(tx.deleted);
    assert_eq!(tx.user_id, ALICE);
}
