//! The backing store: opens the SQLite database, applies the fixed schema,
//! and exposes the single-statement operations on the `financial_record`
//! table that the repository is built on.
//!
//! Everything the store does is described against one model: `table_of`, the
//! rows of the table keyed by id. The functions that actually talk to the
//! store are trusted wrappers around `rusqlite`; each states over `table_of`
//! exactly what its one statement does.

use vstd::prelude::*;

use rusqlite::OptionalExtension;

use crate::errors::{InitError, RepoError};

verus! {

#[verifier::external_type_specification]
#[verifier::external_body]
pub struct ExConnection(rusqlite::Connection);

/// What one row of the `financial_record` table stores besides its id:
/// `(name, amount, frequency text, record_type text)`, in column order.
pub type StoredRow = (Seq<char>, int, Seq<char>, Seq<char>);

/// The rows of the `financial_record` table reachable through a connection,
/// keyed by id. A database in which the table does not yet exist holds no
/// rows.
pub uninterp spec fn table_of(c: rusqlite::Connection) -> Map<Seq<char>, StoredRow>;

/// One row as stored, before its enum text has been parsed.
pub struct RawRow {
    pub id: String,
    pub name: String,
    pub amount: i64,
    pub frequency: String,
    pub record_type: String,
}

/// The stored value of a raw row.
pub open spec fn raw_row_val(r: RawRow) -> StoredRow {
    (r.name@, r.amount as int, r.frequency@, r.record_type@)
}

/// Relies on `rusqlite::Connection::open`: opens the database at `path`,
/// creating the file if absent; the path ":memory:" opens a fresh, empty
/// in-memory database.
#[verifier::external_body]
fn open_connection(path: &str) -> (r: Result<rusqlite::Connection, InitError>)
    ensures
        r matches Ok(c) ==> (path@ == ":memory:"@ ==> table_of(c) == Map::<Seq<char>,
        StoredRow>::empty()),
{
    rusqlite::Connection::open(path).map_err(|e| InitError { message: e.to_string() })
}

/// Relies on `rusqlite::Connection::execute_batch` running one
/// `CREATE TABLE IF NOT EXISTS` statement: existing rows are untouched, and
/// a missing table is created empty, so the rows are the same afterwards
/// whether or not the statement could be applied.
#[verifier::external_body]
fn apply_schema(conn: &mut rusqlite::Connection) -> (r: Result<(), InitError>)
    ensures
        table_of(*final(conn)) == table_of(*old(conn)),
{
    conn.execute_batch(
        "CREATE TABLE IF NOT EXISTS financial_record (
            id TEXT PRIMARY KEY,
            name TEXT NOT NULL,
            amount INTEGER NOT NULL,
            frequency TEXT NOT NULL,
            record_type TEXT NOT NULL
        )",
    ).map_err(|e| InitError { message: e.to_string() })
}

/// Opens (creating if absent) the backing store at `path` — or an ephemeral
/// in-memory store when `path` is ":memory:" — and applies the idempotent
/// table definition. Failure is fatal at startup: the surrounding process
/// must not proceed without a usable store.
pub fn init_db(path: &str) -> (r: Result<rusqlite::Connection, InitError>)
    ensures
        r matches Ok(c) ==> (path@ == ":memory:"@ ==> table_of(c) == Map::<Seq<char>,
        StoredRow>::empty()),
{
    match open_connection(path) {
        Ok(mut conn) => match apply_schema(&mut conn) {
            Ok(()) => Ok(conn),
            Err(e) => Err(e),
        },
        Err(e) => Err(e),
    }
}

/// Relies on `rusqlite::Connection::execute` with an `INSERT` statement:
/// SQLite appends exactly the bound row, and rejects a duplicate primary
/// key with a constraint violation (the only constraint these non-null
/// bindings can break), leaving the table unchanged on any failure.
#[verifier::external_body]
pub(crate) fn exec_insert_row(
    conn: &mut rusqlite::Connection,
    id: &str,
    name: &str,
    amount: i64,
    frequency: &str,
    record_type: &str,
) -> (r: Result<(), RepoError>)
    ensures
        r is Ok ==> !table_of(*old(conn)).contains_key(id@) && table_of(*final(conn)) == table_of(
            *old(conn),
        ).insert(id@, (name@, amount as int, frequency@, record_type@)),
        r is Err ==> table_of(*final(conn)) == table_of(*old(conn)),
        r matches Err(e) ==> e is Conflict || e is Underlying,
        r matches Err(RepoError::Conflict) ==> table_of(*old(conn)).contains_key(id@),
{
    let sql =
        "INSERT INTO financial_record (id, name, amount, frequency, record_type) VALUES (?1, ?2, ?3, ?4, ?5)";
    match conn.execute(sql, (id, name, amount, frequency, record_type)) {
        Ok(_) => Ok(()),
        Err(e) => match e.sqlite_error_code() {
            Some(rusqlite::ErrorCode::ConstraintViolation) => Err(RepoError::Conflict),
            _ => Err(RepoError::Underlying(e.to_string())),
        },
    }
}

/// Relies on `rusqlite::Connection::execute` with an `UPDATE ... WHERE id`
/// statement: SQLite overwrites the non-key columns of the row with that
/// primary key if it exists — reporting one changed row — and changes
/// nothing otherwise.
#[verifier::external_body]
pub(crate) fn exec_update_row(
    conn: &mut rusqlite::Connection,
    id: &str,
    name: &str,
    amount: i64,
    frequency: &str,
    record_type: &str,
) -> (r: Result<usize, RepoError>)
    ensures
        r matches Ok(n) ==> (if table_of(*old(conn)).contains_key(id@) {
            n == 1 && table_of(*final(conn)) == table_of(*old(conn)).insert(
                id@,
                (name@, amount as int, frequency@, record_type@),
            )
        } else {
            n == 0 && table_of(*final(conn)) == table_of(*old(conn))
        }),
        r is Err ==> table_of(*final(conn)) == table_of(*old(conn)),
        r matches Err(e) ==> e is Underlying,
{
    let sql =
        "UPDATE financial_record SET name = ?1, amount = ?2, frequency = ?3, record_type = ?4 WHERE id = ?5";
    match conn.execute(sql, (name, amount, frequency, record_type, id)) {
        Ok(n) => Ok(n),
        Err(e) => Err(RepoError::Underlying(e.to_string())),
    }
}

/// Relies on `rusqlite::Connection::execute` with a `DELETE ... WHERE id`
/// statement: SQLite removes the row with that primary key if present —
/// reporting one changed row — and is a no-op otherwise.
#[verifier::external_body]
pub(crate) fn exec_delete_row(conn: &mut rusqlite::Connection, id: &str) -> (r: Result<
    usize,
    RepoError,
>)
    ensures
        r matches Ok(n) ==> table_of(*final(conn)) == table_of(*old(conn)).remove(id@) && n == (
        if table_of(*old(conn)).contains_key(id@) {
            1int
        } else {
            0int
        }),
        r is Err ==> table_of(*final(conn)) == table_of(*old(conn)),
        r matches Err(e) ==> e is Underlying,
{
    match conn.execute("DELETE FROM financial_record WHERE id = ?1", (id,)) {
        Ok(n) => Ok(n),
        Err(e) => Err(RepoError::Underlying(e.to_string())),
    }
}

/// Relies on `rusqlite::Connection::query_row` with a `SELECT ... WHERE id`
/// statement and `OptionalExtension::optional`: yields the unique row with
/// that primary key, or `None` when the table has no such row.
#[verifier::external_body]
pub(crate) fn query_row_by_id(conn: &rusqlite::Connection, id: &str) -> (r: Result<
    Option<RawRow>,
    RepoError,
>)
    ensures
        r matches Ok(Some(row)) ==> row.id@ == id@ && table_of(*conn).contains_key(id@)
            && table_of(*conn)[id@] == raw_row_val(row),
        r matches Ok(None) ==> !table_of(*conn).contains_key(id@),
        r matches Err(e) ==> e is Underlying,
{
    let sql = "SELECT id, name, amount, frequency, record_type FROM financial_record WHERE id = ?1";
    let res = conn.query_row(sql, (id,), |row| {
        Ok(RawRow { id: row.get(0)?, name: row.get(1)?, amount: row.get(2)?, frequency: row.get(3)?, record_type: row.get(4)? })
    }).optional();
    res.map_err(|e| RepoError::Underlying(e.to_string()))
}

/// Relies on `rusqlite::Statement::query_map` over a `SELECT` of the whole
/// table: a full scan yields every row exactly once, in an order SQLite
/// does not specify.
#[verifier::external_body]
pub(crate) fn query_all_rows(conn: &rusqlite::Connection) -> (r: Result<Vec<RawRow>, RepoError>)
    ensures
        r matches Ok(v) ==> (forall|i: int|
            0 <= i < v@.len() ==> table_of(*conn).contains_key(#[trigger] v@[i].id@) && table_of(
                *conn,
            )[v@[i].id@] == raw_row_val(v@[i])),
        r matches Ok(v) ==> (forall|k: Seq<char>|
            table_of(*conn).contains_key(k) ==> exists|i: int|
                0 <= i < v@.len() && #[trigger] v@[i].id@ == k),
        r matches Ok(v) ==> (forall|i: int, j: int|
            0 <= i < j < v@.len() ==> v@[i].id@ != v@[j].id@),
        r matches Err(e) ==> e is Underlying,
{
    let sql = "SELECT id, name, amount, frequency, record_type FROM financial_record";
    let res = conn.prepare(sql).and_then(|mut stmt| {
        stmt.query_map((), |row| {
            Ok(RawRow { id: row.get(0)?, name: row.get(1)?, amount: row.get(2)?, frequency: row.get(3)?, record_type: row.get(4)? })
        })?.collect()
    });
    res.map_err(|e| RepoError::Underlying(e.to_string()))
}

} // verus!
