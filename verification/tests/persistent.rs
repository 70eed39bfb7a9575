use fuel_ledger::postgr::{CREATE_SQL, DELETE_SQL, GET_SQL, LIST_SQL, UPDATE_SQL};
use fuel_ledger::{
    ApiTransaction, AppError, Money, PostgresStore, Repository, SqlValue, Step, Timestamp,
    Transaction, TxId, UserId,
};

fn input() -> ApiTransaction {
    ApiTransaction {
        op_date: Timestamp { secs: 1_700_000_000, nanos: 5 },
        gas_station_id: 10,
        card_id: Some(11),
        contract_id: None,
        nomenclature_id: 12,
        amount: Some(Money { mantissa: 1250, scale: 2 }),
        stella_sum: None,
        stella_nds_sum: Some(Money { mantissa: 3, scale: 0 }),
        refund: true,
        buy_sum_plan: Some(Money { mantissa: 4, scale: 1 }),
        buy_nds_sum_plan: Some(Money { mantissa: 5, scale: 1 }),
        buy_sum_fact: Some(Money { mantissa: 6, scale: 1 }),
        buy_nds_sum_fact: Some(Money { mantissa: 7, scale: 1 }),
        sell_sum_plan: Some(Money { mantissa: 8, scale: 1 }),
        sell_nds_sum_plan: Some(Money { mantissa: 9, scale: 1 }),
        sell_sum_fact: Some(Money { mantissa: 10, scale: 1 }),
        sell_nds_sum_fact: Some(Money { mantissa: 11, scale: 1 }),
        implementation_id: Some(13),
    }
}

fn bound() -> Vec<SqlValue> {
    vec![
        SqlValue::Time(Timestamp { secs: 1_700_000_000, nanos: 5 }),
        SqlValue::Id(10),
        SqlValue::OptionalId(Some(11)),
        SqlValue::OptionalId(None),
        SqlValue::Id(12),
        SqlValue::Amount(Some(Money { mantissa: 1250, scale: 2 })),
        SqlValue::Amount(None),
        SqlValue::Amount(Some(Money { mantissa: 3, scale: 0 })),
        SqlValue::Flag(true),
        SqlValue::Amount(Some(Money { mantissa: 4, scale: 1 })),
        SqlValue::Amount(Some(Money { mantissa: 5, scale: 1 })),
        SqlValue::Amount(Some(Money { mantissa: 6, scale: 1 })),
        SqlValue::Amount(Some(Money { mantissa: 7, scale: 1 })),
        SqlValue::Amount(Some(Money { mantissa: 8, scale: 1 })),
        SqlValue::Amount(Some(Money { mantissa: 9, scale: 1 })),
        SqlValue::Amount(Some(Money { mantissa: 10, scale: 1 })),
        SqlValue::Amount(Some(Money { mantissa: 11, scale: 1 })),
        SqlValue::OptionalId(Some(13)),
    ]
}

fn row(id: u128) -> Transaction {
    Transaction::new(id, 77, input(), Timestamp { secs: 50, nanos: 0 })
}

fn placeholders(text: &str) -> usize {
    let mut n = 0;
    while text.contains(&format!("${}", n + 1)) {
        n += 1;
    }
    n
}

#[test]
fn list_statement_orders_by_creation() {
    let st = PostgresStore::new().get_transactions_list();
    assert_eq!(st.text, "SELECT * FROM transactions ORDER BY date_created ASC;");
    assert_eq!(st.text, LIST_SQL);
    assert!(st.params.is_empty());
}

#[test]
fn get_statement_binds_the_identifier() {
    let st = PostgresStore::new().get_transaction(TxId(9));
    assert_eq!(st.text, "SELECT * FROM transactions WHERE id = $1;");
    assert_eq!(st.text, GET_SQL);
    assert_eq!(st.params, vec![SqlValue::Id(9)]);
}

#[test]
fn create_statement_binds_fields_then_actor() {
    let st = PostgresStore::new().create_transaction(UserId(77), &input());
    assert_eq!(st.text, CREATE_SQL);
    let mut expected = bound();
    expected.push(SqlValue::Id(77));
    assert_eq!(st.params, expected);
    assert_eq!(st.params.len(), 19);
    assert_eq!(placeholders(st.text), 19);
}

#[test]
fn update_statement_binds_fields_actor_and_identifier() {
    let st = PostgresStore::new().update_transaction(TxId(9), UserId(77), &input());
    assert_eq!(st.text, UPDATE_SQL);
    let mut expected = bound();
    expected.push(SqlValue::Id(77));
    expected.push(SqlValue::Id(9));
    assert_eq!(st.params, expected);
    assert_eq!(placeholders(st.text), 20);
    assert!(st.text.ends_with("WHERE id = $20 RETURNING *;"));
}

#[test]
fn delete_statement_binds_actor_then_identifier() {
    let st = PostgresStore::new().delete_transaction(TxId(9), UserId(77));
    assert_eq!(st.text, DELETE_SQL);
    assert_eq!(st.params, vec![SqlValue::Id(77), SqlValue::Id(9)]);
    assert_eq!(placeholders(st.text), 2);
    assert!(st.text.contains("deleted = true"));
}

#[test]
fn statement_text_never_holds_a_value() {
    let store = PostgresStore::new();
    let a = store.update_transaction(TxId(1), UserId(2), &input());
    let mut other = input();
    other.gas_station_id = 999;
    other.refund = false;
    let b = store.update_transaction(TxId(3), UserId(4), &other);
    assert_eq!(a.text, b.text);
    assert_ne!(a.params, b.params);
}

#[test]
fn listing_takes_the_rows_as_they_come() {
    assert_eq!(PostgresStore::listed(Ok(vec![])), Ok(vec![]));
    assert_eq!(PostgresStore::listed(Ok(vec![row(1), row(2)])), Ok(vec![row(1), row(2)]));
    assert_eq!(
        PostgresStore::listed(Err(String::from("connection refused"))),
        Err(AppError::SystemError(String::from("connection refused")))
    );
}

#[test]
fn no_row_means_not_found() {
    let id: u128 = 0x550e8400_e29b_41d4_a716_446655440000;
    let missing = AppError::NotFound(String::from(
        "Transaction with id 550e8400-e29b-41d4-a716-446655440000 not found",
    ));
    assert_eq!(PostgresStore::fetched(TxId(id), Ok(vec![])), Err(AppError::NotFound(String::from(
        "Transaction with id 550e8400-e29b-41d4-a716-446655440000 not found",
    ))));
    assert_eq!(PostgresStore::deleted(TxId(id), Ok(vec![])), Err(missing));
}

#[test]
fn a_row_is_the_outcome() {
    assert_eq!(PostgresStore::fetched(TxId(1), Ok(vec![row(1)])), Ok(row(1)));
    assert_eq!(PostgresStore::fetched(TxId(1), Ok(vec![row(2), row(1)])), Ok(row(1)));
    assert_eq!(PostgresStore::deleted(TxId(1), Ok(vec![row(1)])), Ok(()));
    assert_eq!(PostgresStore::inserted(Ok(row(3))), Ok(row(3)));
}

#[test]
fn engine_failures_are_system_errors() {
    let failure = || Err(String::from("deadlock detected"));
    let expected = || AppError::SystemError(String::from("deadlock detected"));
    assert_eq!(PostgresStore::fetched(TxId(1), failure()), Err(expected()));
    assert_eq!(PostgresStore::deleted(TxId(1), failure()), Err(expected()));
    assert_eq!(
        PostgresStore::inserted(Err(String::from("deadlock detected"))),
        Err(expected())
    );
    assert_eq!(expected().status(), 500);
}

#[test]
fn repository_over_memory_answers_at_once() {
    let mut repo = Repository::new(true);
    let created = match repo.create_transaction(UserId(77), input()) {
        Step::Done(Ok(tx)) => tx,
        _ => panic!("the in-memory backend answers at once"),
    };
    assert_eq!(created.user_id, 77);
    assert_eq!(created.amount, Some(Money { mantissa: 1250, scale: 2 }));
    assert!(matches!(repo.get_transaction(TxId(created.id)), Step::Done(Ok(tx)) if tx == created));
    let mut changed = input();
    changed.amount = None;
    let updated = match repo.update_transaction(TxId(created.id), UserId(78), changed) {
        Step::Done(Ok(tx)) => tx,
        _ => panic!("the in-memory backend answers at once"),
    };
    assert_eq!(updated.amount, None);
    assert_eq!(updated.user_id, 78);
    assert_eq!(updated.date_created, created.date_created);
    assert!(matches!(repo.delete_transaction(TxId(created.id), UserId(79)), Step::Done(Ok(()))));
    match repo.get_transactions_list() {
        Step::Done(Ok(list)) => {
            assert_eq!(list.len(), 1);
            assert!(list[0].deleted);
            assert_eq!(list[0].user_id, 79);
        }
        _ => panic!("the in-memory backend answers at once"),
    }
    assert!(matches!(
        repo.get_transaction(TxId(created.id ^ 1)),
        Step::Done(Err(AppError::NotFound(_)))
    ));
    assert!(matches!(
        repo.delete_transaction(TxId(created.id ^ 1), UserId(79)),
        Step::Done(Err(AppError::NotFound(_)))
    ));
    assert!(!repo.close());
}

#[test]
fn repository_over_the_engine_hands_out_statements() {
    let mut repo = Repository::new(false);
    assert!(matches!(repo.get_transactions_list(), Step::Run(st) if st.text == LIST_SQL));
    assert!(matches!(
        repo.get_transaction(TxId(9)),
        Step::Run(st) if st.text == GET_SQL && st.params == vec![SqlValue::Id(9)]
    ));
    assert!(matches!(
        repo.create_transaction(UserId(77), input()),
        Step::Run(st) if st.text == CREATE_SQL && st.params.len() == 19
    ));
    assert!(matches!(
        repo.update_transaction(TxId(9), UserId(77), input()),
        Step::Run(st) if st.text == UPDATE_SQL && st.params.len() == 20
    ));
    assert!(matches!(
        repo.delete_transaction(TxId(9), UserId(77)),
        Step::Run(st) if st.text == DELETE_SQL
            && st.params == vec![SqlValue::Id(77), SqlValue::Id(9)]
    ));
    assert!(repo.close());
    assert!(repo.close());
}
