use budget::db::init_db;
use budget::errors::{RepoError, ServiceError};
use budget::models::{FinancialRecord, Frequency, RecordType};
use budget::service::{
    add_debt, add_expense, add_income, add_record, delete_record, get_all_expenses, get_all_income,
    get_all_records, get_record_by_id, update_record,
};
use rusqlite::Connection;

fn setup_conn() -> Connection {
    init_db(":memory:").expect("failed to open memory db")
}

fn row_count(conn: &Connection) -> i64 {
    conn.query_row("SELECT COUNT(*) FROM financial_record", [], |row| row.get(0)).unwrap()
}

#[test]
fn add_zero_amount_is_invalid_and_writes_nothing() {
    let mut conn = setup_conn();
    let err =
        add_record(&mut conn, "X", 0, Frequency::Daily, RecordType::Income).unwrap_err();
    assert!(matches!(err, ServiceError::InvalidAmount));
    assert_eq!(row_count(&conn), 0);
}

#[test]
fn add_negative_amount_is_invalid_and_writes_nothing() {
    let mut conn = setup_conn();
    let err =
        add_record(&mut conn, "X", -5, Frequency::Daily, RecordType::Income).unwrap_err();
    assert!(matches!(err, ServiceError::InvalidAmount));
    assert_eq!(row_count(&conn), 0);
}

#[test]
fn add_returns_fully_populated_record() {
    let mut conn = setup_conn();
    let rec = add_record(&mut conn, "Salary", 3000, Frequency::Monthly, RecordType::Income)
        .expect("valid add must succeed");
    assert_eq!(rec.name, "Salary");
    assert_eq!(rec.amount, 3000);
    assert_eq!(rec.frequency, Frequency::Monthly);
    assert_eq!(rec.record_type, RecordType::Income);
    assert_eq!(rec.id.len(), 36);
    assert_eq!(row_count(&conn), 1);
}

#[test]
fn repeated_adds_mint_distinct_ids_and_lose_no_writes() {
    let mut conn = setup_conn();
    let n = 20;
    let mut ids: Vec<String> = Vec::new();
    for i in 0..n {
        let rec = add_record(
            &mut conn,
            "Entry",
            100 + i,
            Frequency::Weekly,
            RecordType::Expense,
        )
        .expect("every add must succeed");
        ids.push(rec.id);
    }
    ids.sort();
    ids.dedup();
    assert_eq!(ids.len(), n as usize);
    assert_eq!(row_count(&conn), n);
}

#[test]
fn add_income_expense_debt_fix_the_kind() {
    let mut conn = setup_conn();
    let a = add_income(&mut conn, "Pay", 10, Frequency::Monthly).unwrap();
    let b = add_expense(&mut conn, "Rent", 9, Frequency::Monthly).unwrap();
    let c = add_debt(&mut conn, "Loan", 8, Frequency::Yearly).unwrap();
    assert_eq!(a.record_type, RecordType::Income);
    assert_eq!(b.record_type, RecordType::Expense);
    assert_eq!(c.record_type, RecordType::Debt);
    assert_eq!(row_count(&conn), 3);
}

#[test]
fn persistence_round_trip_through_service() {
    let mut conn = setup_conn();
    let added =
        add_record(&mut conn, "Gym", 45, Frequency::Monthly, RecordType::Expense).unwrap();
    let got = get_record_by_id(&conn, &added.id).unwrap();
    assert_eq!(got, added);
}

#[test]
fn delete_is_idempotent_and_removes_the_row() {
    let mut conn = setup_conn();
    let rec = add_record(&mut conn, "Gone", 7, Frequency::Daily, RecordType::Debt).unwrap();

    delete_record(&mut conn, &rec.id).expect("first delete succeeds");
    delete_record(&mut conn, &rec.id).expect("second delete succeeds too");

    let err = get_record_by_id(&conn, &rec.id).unwrap_err();
    assert!(matches!(err, ServiceError::Repo(RepoError::NotFound)));
}

#[test]
fn kind_filters_return_exact_subsets() {
    let mut conn = setup_conn();
    let a = add_income(&mut conn, "Pay", 100, Frequency::Monthly).unwrap();
    let b = add_expense(&mut conn, "Rent", 90, Frequency::Monthly).unwrap();
    let c = add_income(&mut conn, "Bonus", 50, Frequency::Yearly).unwrap();
    let d = add_debt(&mut conn, "Loan", 40, Frequency::Monthly).unwrap();

    let mut income = get_all_income(&conn).unwrap();
    income.sort_by(|x, y| x.name.cmp(&y.name));
    assert_eq!(income, vec![c.clone(), a.clone()]);

    let expenses = get_all_expenses(&conn).unwrap();
    assert_eq!(expenses, vec![b.clone()]);

    let all = get_all_records(&conn).unwrap();
    assert_eq!(all.len(), 4);
    for rec in [&a, &b, &c, &d] {
        assert!(all.contains(rec));
    }
}

#[test]
fn update_overwrites_the_row_in_full() {
    let mut conn = setup_conn();
    let rec = add_record(&mut conn, "Old", 50, Frequency::Daily, RecordType::Expense).unwrap();
    let changed = FinancialRecord {
        id: rec.id.clone(),
        name: "New".to_owned(),
        amount: 75,
        frequency: Frequency::Weekly,
        record_type: RecordType::Income,
    };
    update_record(&mut conn, &changed).expect("update of existing row succeeds");
    let got = get_record_by_id(&conn, &rec.id).unwrap();
    assert_eq!(got, changed);
}

#[test]
fn update_rejects_non_positive_amount() {
    let mut conn = setup_conn();
    let rec = add_record(&mut conn, "Keep", 50, Frequency::Daily, RecordType::Expense).unwrap();
    let bad = FinancialRecord { amount: 0, ..rec.clone() };
    let err = update_record(&mut conn, &bad).unwrap_err();
    assert!(matches!(err, ServiceError::InvalidAmount));
    // the stored row is untouched
    assert_eq!(get_record_by_id(&conn, &rec.id).unwrap(), rec);
}

#[test]
fn update_missing_id_is_not_found() {
    let mut conn = setup_conn();
    let rec = FinancialRecord::new("Nobody", 5, Frequency::Daily, RecordType::Debt);
    let err = update_record(&mut conn, &rec).unwrap_err();
    assert!(matches!(err, ServiceError::Repo(RepoError::NotFound)));
}

#[test]
fn corruption_surfaces_through_service_reads() {
    let conn = setup_conn();
    conn.execute(
        "INSERT INTO financial_record (id, name, amount, frequency, record_type) \
         VALUES ('bad-row', 'Ghost', 5, 'Hourly', 'Income')",
        [],
    )
    .unwrap();
    let err = get_all_records(&conn).unwrap_err();
    assert!(matches!(err, ServiceError::Repo(RepoError::Corrupt(_, _))));
}
