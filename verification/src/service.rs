//! The record service: the boundary other code talks to. It validates
//! input (a record's amount must be strictly positive), assigns identity,
//! and delegates to the repository over the caller's exclusive access to
//! the shared connection. Every call is one independently complete unit of
//! work against the store.

use vstd::prelude::*;

use crate::db::table_of;
use crate::errors::{RepoError, ServiceError};
use crate::models::{FinancialRecord, Frequency, RecordType};
use crate::record_repository::{
    self, record_row, records_match_table, records_match_table_kind, row_wf, table_wf,
};

verus! {

/// Validates the amount, mints a record with a fresh id, and inserts it.
/// A non-positive amount is rejected before any store access; on any
/// failure nothing has been written. Success means the minted id was not
/// already present: no existing row is ever overwritten or lost.
pub fn add_record(
    conn: &mut rusqlite::Connection,
    name: &str,
    amount: i64,
    frequency: Frequency,
    record_type: RecordType,
) -> (r: Result<FinancialRecord, ServiceError>)
    ensures
        amount <= 0 ==> r matches Err(ServiceError::InvalidAmount),
        r matches Err(ServiceError::InvalidAmount) ==> amount <= 0,
        r matches Ok(rec) ==> amount > 0 && rec.name@ == name@ && rec.amount == amount
            && rec.frequency == frequency && rec.record_type == record_type && !table_of(
            *old(conn),
        ).contains_key(rec.id@) && table_of(*final(conn)) == table_of(*old(conn)).insert(
            rec.id@,
            record_row(rec),
        ),
        r is Err ==> table_of(*final(conn)) == table_of(*old(conn)),
        r matches Err(e) ==> e is InvalidAmount || e matches ServiceError::Repo(
            RepoError::Conflict,
        ) || e matches ServiceError::Repo(RepoError::Underlying(_)),
{
    if amount <= 0 {
        return Err(ServiceError::InvalidAmount);
    }
    let record = FinancialRecord::new(name, amount, frequency, record_type);
    match record_repository::insert_record(conn, &record) {
        Ok(()) => Ok(record),
        Err(e) => Err(ServiceError::Repo(e)),
    }
}

/// Adds an income record: `add_record` with the kind fixed to `Income`.
pub fn add_income(conn: &mut rusqlite::Connection, name: &str, amount: i64, freq: Frequency) -> (r:
    Result<FinancialRecord, ServiceError>)
    ensures
        amount <= 0 ==> r matches Err(ServiceError::InvalidAmount),
        r matches Err(ServiceError::InvalidAmount) ==> amount <= 0,
        r matches Ok(rec) ==> amount > 0 && rec.name@ == name@ && rec.amount == amount
            && rec.frequency == freq && rec.record_type == RecordType::Income && !table_of(
            *old(conn),
        ).contains_key(rec.id@) && table_of(*final(conn)) == table_of(*old(conn)).insert(
            rec.id@,
            record_row(rec),
        ),
        r is Err ==> table_of(*final(conn)) == table_of(*old(conn)),
{
    add_record(conn, name, amount, freq, RecordType::Income)
}

/// Adds an expense record: `add_record` with the kind fixed to `Expense`.
pub fn add_expense(conn: &mut rusqlite::Connection, name: &str, amount: i64, freq: Frequency) -> (r:
    Result<FinancialRecord, ServiceError>)
    ensures
        amount <= 0 ==> r matches Err(ServiceError::InvalidAmount),
        r matches Err(ServiceError::InvalidAmount) ==> amount <= 0,
        r matches Ok(rec) ==> amount > 0 && rec.name@ == name@ && rec.amount == amount
            && rec.frequency == freq && rec.record_type == RecordType::Expense && !table_of(
            *old(conn),
        ).contains_key(rec.id@) && table_of(*final(conn)) == table_of(*old(conn)).insert(
            rec.id@,
            record_row(rec),
        ),
        r is Err ==> table_of(*final(conn)) == table_of(*old(conn)),
{
    add_record(conn, name, amount, freq, RecordType::Expense)
}

/// Adds a debt record: `add_record` with the kind fixed to `Debt`.
pub fn add_debt(conn: &mut rusqlite::Connection, name: &str, amount: i64, freq: Frequency) -> (r:
    Result<FinancialRecord, ServiceError>)
    ensures
        amount <= 0 ==> r matches Err(ServiceError::InvalidAmount),
        r matches Err(ServiceError::InvalidAmount) ==> amount <= 0,
        r matches Ok(rec) ==> amount > 0 && rec.name@ == name@ && rec.amount == amount
            && rec.frequency == freq && rec.record_type == RecordType::Debt && !table_of(
            *old(conn),
        ).contains_key(rec.id@) && table_of(*final(conn)) == table_of(*old(conn)).insert(
            rec.id@,
            record_row(rec),
        ),
        r is Err ==> table_of(*final(conn)) == table_of(*old(conn)),
{
    add_record(conn, name, amount, freq, RecordType::Debt)
}

/// Re-validates the amount, then overwrites the row matching `record.id`
/// in full. Updating an id that is not present is reported as `NotFound`;
/// the id itself is never changed by an update.
pub fn update_record(conn: &mut rusqlite::Connection, record: &FinancialRecord) -> (r: Result<
    (),
    ServiceError,
>)
    ensures
        record.amount <= 0 ==> r matches Err(ServiceError::InvalidAmount),
        r matches Err(ServiceError::InvalidAmount) ==> record.amount <= 0,
        r is Ok ==> record.amount > 0 && table_of(*old(conn)).contains_key(record.id@) && table_of(
            *final(conn),
        ) == table_of(*old(conn)).insert(record.id@, record_row(*record)),
        r matches Err(ServiceError::Repo(RepoError::NotFound)) ==> !table_of(
            *old(conn),
        ).contains_key(record.id@),
        r is Err ==> table_of(*final(conn)) == table_of(*old(conn)),
        r matches Err(e) ==> e is InvalidAmount || e matches ServiceError::Repo(RepoError::NotFound)
            || e matches ServiceError::Repo(RepoError::Underlying(_)),
{
    if record.amount <= 0 {
        return Err(ServiceError::InvalidAmount);
    }
    match record_repository::update_record(conn, record) {
        Ok(changed) => {
            if changed == 0 {
                Err(ServiceError::Repo(RepoError::NotFound))
            } else {
                Ok(())
            }
        },
        Err(e) => Err(ServiceError::Repo(e)),
    }
}

/// Removes the row with `id`. Deletion is idempotent: deleting an id that
/// is not present succeeds and changes nothing.
pub fn delete_record(conn: &mut rusqlite::Connection, id: &str) -> (r: Result<(), ServiceError>)
    ensures
        r is Ok ==> table_of(*final(conn)) == table_of(*old(conn)).remove(id@),
        r is Err ==> table_of(*final(conn)) == table_of(*old(conn)),
        r matches Err(e) ==> e matches ServiceError::Repo(RepoError::Underlying(_)),
{
    match record_repository::delete_record(conn, id) {
        Ok(()) => Ok(()),
        Err(e) => Err(ServiceError::Repo(e)),
    }
}

/// Fetches the record with `id`, wrapping repository failures unchanged.
pub fn get_record_by_id(conn: &rusqlite::Connection, id: &str) -> (r: Result<
    FinancialRecord,
    ServiceError,
>)
    ensures
        r matches Ok(rec) ==> table_of(*conn).contains_key(id@) && rec.id@ == id@ && record_row(rec)
            == table_of(*conn)[id@],
        r matches Err(ServiceError::Repo(RepoError::NotFound)) ==> !table_of(*conn).contains_key(
            id@,
        ),
        r matches Err(ServiceError::Repo(RepoError::Corrupt(_, _))) ==> table_of(
            *conn,
        ).contains_key(id@) && !row_wf(table_of(*conn)[id@]),
        r matches Err(e) ==> e matches ServiceError::Repo(_),
{
    match record_repository::get_record_by_id(conn, id) {
        Ok(rec) => Ok(rec),
        Err(e) => Err(ServiceError::Repo(e)),
    }
}

/// Fetches every record, in unspecified order; a corrupt row anywhere
/// fails the whole read.
pub fn get_all_records(conn: &rusqlite::Connection) -> (r: Result<
    Vec<FinancialRecord>,
    ServiceError,
>)
    ensures
        r matches Ok(v) ==> records_match_table(v@, table_of(*conn)) && table_wf(table_of(*conn)),
        r matches Err(ServiceError::Repo(RepoError::Corrupt(_, _))) ==> !table_wf(table_of(*conn)),
        r matches Err(e) ==> e matches ServiceError::Repo(_),
{
    match record_repository::get_records(conn) {
        Ok(v) => Ok(v),
        Err(e) => Err(ServiceError::Repo(e)),
    }
}

/// Fetches exactly the income records, in unspecified order.
pub fn get_all_income(conn: &rusqlite::Connection) -> (r: Result<
    Vec<FinancialRecord>,
    ServiceError,
>)
    ensures
        r matches Ok(v) ==> records_match_table_kind(v@, table_of(*conn), RecordType::Income)
            && table_wf(table_of(*conn)),
        r matches Err(ServiceError::Repo(RepoError::Corrupt(_, _))) ==> !table_wf(table_of(*conn)),
        r matches Err(e) ==> e matches ServiceError::Repo(_),
{
    match record_repository::get_records_by_type(conn, RecordType::Income) {
        Ok(v) => Ok(v),
        Err(e) => Err(ServiceError::Repo(e)),
    }
}

/// Fetches exactly the expense records, in unspecified order.
pub fn get_all_expenses(conn: &rusqlite::Connection) -> (r: Result<
    Vec<FinancialRecord>,
    ServiceError,
>)
    ensures
        r matches Ok(v) ==> records_match_table_kind(v@, table_of(*conn), RecordType::Expense)
            && table_wf(table_of(*conn)),
        r matches Err(ServiceError::Repo(RepoError::Corrupt(_, _))) ==> !table_wf(table_of(*conn)),
        r matches Err(e) ==> e matches ServiceError::Repo(_),
{
    match record_repository::get_records_by_type(conn, RecordType::Expense) {
        Ok(v) => Ok(v),
        Err(e) => Err(ServiceError::Repo(e)),
    }
}

} // verus!
