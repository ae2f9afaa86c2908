//! The record repository: a pure translation layer between domain values
//! and rows of the `financial_record` table. It owns the enum-to-text
//! marshalling contract: `frequency` and `record_type` are stored as their
//! canonical strings and parsed back on every read, and a stored value that
//! fails to parse fails the whole read as `RepoError::Corrupt` — corrupt
//! rows are never dropped from a result.

use vstd::prelude::*;

use crate::db::{
    exec_delete_row, exec_insert_row, exec_update_row, query_all_rows, query_row_by_id, table_of,
    raw_row_val, RawRow, StoredRow,
};
use crate::errors::RepoError;
use crate::models::{
    frequency_of_text, frequency_text, lemma_frequency_round_trip, lemma_frequency_text_round_trip,
    lemma_record_type_round_trip, lemma_record_type_text_injective, lemma_record_type_text_round_trip,
    lemma_frequency_text_injective, record_type_of_text, record_type_text, FinancialRecord,
    Frequency, RecordType,
};

verus! {

/// The row that `record` is stored as, besides its id.
pub open spec fn record_row(record: FinancialRecord) -> StoredRow {
    (
        record.name@,
        record.amount as int,
        frequency_text(record.frequency),
        record_type_text(record.record_type),
    )
}

/// A stored row is well formed when both of its enum columns hold canonical
/// text.
pub open spec fn row_wf(row: StoredRow) -> bool {
    frequency_of_text(row.2) is Some && record_type_of_text(row.3) is Some
}

/// Every row of the table is well formed.
pub open spec fn table_wf(t: Map<Seq<char>, StoredRow>) -> bool {
    forall|k: Seq<char>| t.contains_key(k) ==> row_wf(#[trigger] t[k])
}

/// `rs` lists exactly the rows of `t`, parsed, each exactly once, in some
/// order.
pub open spec fn records_match_table(rs: Seq<FinancialRecord>, t: Map<Seq<char>, StoredRow>) -> bool {
    &&& forall|i: int|
        0 <= i < rs.len() ==> t.contains_key((#[trigger] rs[i]).id@) && t[rs[i].id@] == record_row(
            rs[i],
        )
    &&& forall|k: Seq<char>|
        t.contains_key(k) ==> exists|i: int| 0 <= i < rs.len() && (#[trigger] rs[i]).id@ == k
    &&& forall|i: int, j: int| 0 <= i < j < rs.len() ==> rs[i].id@ != rs[j].id@
}

/// `rs` lists exactly the rows of `t` whose kind is `record_type`, parsed,
/// each exactly once, in some order.
pub open spec fn records_match_table_kind(
    rs: Seq<FinancialRecord>,
    t: Map<Seq<char>, StoredRow>,
    record_type: RecordType,
) -> bool {
    &&& forall|i: int|
        0 <= i < rs.len() ==> (#[trigger] rs[i]).record_type == record_type && t.contains_key(
            rs[i].id@,
        ) && t[rs[i].id@] == record_row(rs[i])
    &&& forall|k: Seq<char>|
        t.contains_key(k) && (#[trigger] t[k]).3 == record_type_text(record_type) ==> exists|i: int|
            0 <= i < rs.len() && (#[trigger] rs[i]).id@ == k
    &&& forall|i: int, j: int| 0 <= i < j < rs.len() ==> rs[i].id@ != rs[j].id@
}

/// `rs` lists exactly the rows of `t` whose frequency is `frequency`,
/// parsed, each exactly once, in some order.
pub open spec fn records_match_table_freq(
    rs: Seq<FinancialRecord>,
    t: Map<Seq<char>, StoredRow>,
    frequency: Frequency,
) -> bool {
    &&& forall|i: int|
        0 <= i < rs.len() ==> (#[trigger] rs[i]).frequency == frequency && t.contains_key(rs[i].id@)
            && t[rs[i].id@] == record_row(rs[i])
    &&& forall|k: Seq<char>|
        t.contains_key(k) && (#[trigger] t[k]).2 == frequency_text(frequency) ==> exists|i: int|
            0 <= i < rs.len() && (#[trigger] rs[i]).id@ == k
    &&& forall|i: int, j: int| 0 <= i < j < rs.len() ==> rs[i].id@ != rs[j].id@
}

/// Marshalling is lossless: two records stored as the same row under the
/// same id agree in every field, so a row read back determines exactly the
/// record that was written.
pub proof fn lemma_stored_row_determines_record(a: FinancialRecord, b: FinancialRecord)
    requires
        a.id@ == b.id@,
        record_row(a) == record_row(b),
    ensures
        a.name@ == b.name@,
        a.amount == b.amount,
        a.frequency == b.frequency,
        a.record_type == b.record_type,
{
    lemma_frequency_text_injective(a.frequency, b.frequency);
    lemma_record_type_text_injective(a.record_type, b.record_type);
}

/// Deletion is idempotent: removing an id a second time changes nothing,
/// and a removed id is no longer present.
pub proof fn lemma_delete_idempotent(t: Map<Seq<char>, StoredRow>, id: Seq<char>)
    ensures
        t.remove(id).remove(id) == t.remove(id),
        !t.remove(id).contains_key(id),
{
    assert(t.remove(id).remove(id) =~= t.remove(id));
}

/// No lost writes: inserting under an id that is not present adds exactly
/// that row and leaves every existing row in place.
pub proof fn lemma_insert_preserves_rows(
    t: Map<Seq<char>, StoredRow>,
    id: Seq<char>,
    row: StoredRow,
)
    requires
        !t.contains_key(id),
    ensures
        t.insert(id, row).contains_key(id) && t.insert(id, row)[id] == row,
        forall|k: Seq<char>|
            t.contains_key(k) ==> k != id && t.insert(id, row).contains_key(k) && t.insert(
                id,
                row,
            )[k] == #[trigger] t[k],
{
}

/// Parses one stored row back into a record. Succeeds exactly when both
/// enum columns hold canonical text; otherwise reports the first offending
/// column and its value as `Corrupt`.
pub fn record_from_raw(raw: &RawRow) -> (r: Result<FinancialRecord, RepoError>)
    ensures
        r is Ok <==> row_wf(raw_row_val(*raw)),
        r matches Ok(rec) ==> rec.id@ == raw.id@ && record_row(rec) == raw_row_val(*raw),
        r matches Err(e) ==> e matches RepoError::Corrupt(_, _),
        r matches Err(RepoError::Corrupt(c, v)) ==> (if frequency_of_text(raw.frequency@) is None {
            c@ == "frequency"@ && v@ == raw.frequency@
        } else {
            c@ == "record_type"@ && v@ == raw.record_type@ && record_type_of_text(
                raw.record_type@,
            ) is None
        }),
{
    let frequency = match Frequency::parse(raw.frequency.as_str()) {
        Ok(f) => f,
        Err(_) => {
            return Err(RepoError::Corrupt("frequency".to_owned(), raw.frequency.clone()));
        },
    };
    let record_type = match RecordType::parse(raw.record_type.as_str()) {
        Ok(t) => t,
        Err(_) => {
            return Err(RepoError::Corrupt("record_type".to_owned(), raw.record_type.clone()));
        },
    };
    proof {
        lemma_frequency_text_round_trip(raw.frequency@);
        lemma_record_type_text_round_trip(raw.record_type@);
    }
    Ok(
        FinancialRecord {
            id: raw.id.clone(),
            name: raw.name.clone(),
            amount: raw.amount,
            frequency,
            record_type,
        },
    )
}

/// Appends one row for `record`. The id must not already exist: a
/// primary-key violation surfaces as `Conflict` and leaves the table
/// unchanged, as does any other failure.
pub fn insert_record(conn: &mut rusqlite::Connection, record: &FinancialRecord) -> (r: Result<
    (),
    RepoError,
>)
    ensures
        r is Ok ==> !table_of(*old(conn)).contains_key(record.id@) && table_of(*final(conn))
            == table_of(*old(conn)).insert(record.id@, record_row(*record)),
        r is Err ==> table_of(*final(conn)) == table_of(*old(conn)),
        r matches Err(RepoError::Conflict) ==> table_of(*old(conn)).contains_key(record.id@),
        r matches Err(e) ==> e is Conflict || e is Underlying,
{
    let frequency = record.frequency.format();
    let record_type = record.record_type.format();
    exec_insert_row(
        conn,
        record.id.as_str(),
        record.name.as_str(),
        record.amount,
        frequency.as_str(),
        record_type.as_str(),
    )
}

/// Overwrites the non-key columns of the row matching `record.id`, and
/// returns how many rows that was: one when the id exists, zero when it
/// does not — updating a missing id is not an error here; callers wanting
/// must-exist semantics check the count.
pub fn update_record(conn: &mut rusqlite::Connection, record: &FinancialRecord) -> (r: Result<
    usize,
    RepoError,
>)
    ensures
        r matches Ok(n) ==> (if table_of(*old(conn)).contains_key(record.id@) {
            n == 1 && table_of(*final(conn)) == table_of(*old(conn)).insert(
                record.id@,
                record_row(*record),
            )
        } else {
            n == 0 && table_of(*final(conn)) == table_of(*old(conn))
        }),
        r is Err ==> table_of(*final(conn)) == table_of(*old(conn)),
        r matches Err(e) ==> e is Underlying,
{
    let frequency = record.frequency.format();
    let record_type = record.record_type.format();
    exec_update_row(
        conn,
        record.id.as_str(),
        record.name.as_str(),
        record.amount,
        frequency.as_str(),
        record_type.as_str(),
    )
}

/// Removes the row with `id`. Deleting a missing id is a no-op, not an
/// error.
pub fn delete_record(conn: &mut rusqlite::Connection, id: &str) -> (r: Result<(), RepoError>)
    ensures
        r is Ok ==> table_of(*final(conn)) == table_of(*old(conn)).remove(id@),
        r is Err ==> table_of(*final(conn)) == table_of(*old(conn)),
        r matches Err(e) ==> e is Underlying,
{
    match exec_delete_row(conn, id) {
        Ok(_) => Ok(()),
        Err(e) => Err(e),
    }
}

/// Fetches the record with `id`, or `NotFound` when no row matches, or
/// `Corrupt` when the row's enum text does not parse.
pub fn get_record_by_id(conn: &rusqlite::Connection, id: &str) -> (r: Result<
    FinancialRecord,
    RepoError,
>)
    ensures
        r matches Ok(rec) ==> table_of(*conn).contains_key(id@) && rec.id@ == id@ && record_row(rec)
            == table_of(*conn)[id@],
        r matches Err(RepoError::NotFound) ==> !table_of(*conn).contains_key(id@),
        r matches Err(RepoError::Corrupt(_, _)) ==> table_of(*conn).contains_key(id@) && !row_wf(
            table_of(*conn)[id@],
        ),
        r matches Err(e) ==> e is NotFound || e matches RepoError::Corrupt(_, _) || e is Underlying,
{
    match query_row_by_id(conn, id) {
        Ok(Some(raw)) => record_from_raw(&raw),
        Ok(None) => Err(RepoError::NotFound),
        Err(e) => Err(e),
    }
}

/// Fetches every row, parsed, in unspecified order. A single corrupt row
/// fails the whole read: success implies every stored row is well formed.
#[verifier::loop_isolation(false)]
pub fn get_records(conn: &rusqlite::Connection) -> (r: Result<Vec<FinancialRecord>, RepoError>)
    ensures
        r matches Ok(v) ==> records_match_table(v@, table_of(*conn)) && table_wf(table_of(*conn)),
        r matches Err(RepoError::Corrupt(_, _)) ==> !table_wf(table_of(*conn)),
        r matches Err(e) ==> e matches RepoError::Corrupt(_, _) || e is Underlying,
{
    let raws = match query_all_rows(conn) {
        Ok(v) => v,
        Err(e) => {
            return Err(e);
        },
    };
    let mut out: Vec<FinancialRecord> = Vec::new();
    let mut idx: usize = 0;
    while idx < raws.len()
        invariant
            idx <= raws@.len(),
            out@.len() == idx,
            forall|j: int|
                0 <= j < idx ==> (#[trigger] out@[j]).id@ == raws@[j].id@ && record_row(out@[j])
                    == raw_row_val(raws@[j]),
        decreases raws@.len() - idx,
    {
        let rec = match record_from_raw(&raws[idx]) {
            Ok(rec) => rec,
            Err(e) => {
                proof {
                    let key = raws@[idx as int].id@;
                    assert(table_of(*conn).contains_key(key) && !row_wf(table_of(*conn)[key]));
                }
                return Err(e);
            },
        };
        out.push(rec);
        idx = idx + 1;
    }
    proof {
        let t = table_of(*conn);
        assert forall|k: Seq<char>| t.contains_key(k) implies exists|i: int|
            0 <= i < out@.len() && (#[trigger] out@[i]).id@ == k by {
            let i = choose|i: int| 0 <= i < raws@.len() && (#[trigger] raws@[i]).id@ == k;
            assert(out@[i].id@ == k);
        };
        assert forall|k: Seq<char>| t.contains_key(k) implies row_wf(#[trigger] t[k]) by {
            let i = choose|i: int| 0 <= i < out@.len() && (#[trigger] out@[i]).id@ == k;
            lemma_frequency_round_trip(out@[i].frequency);
            lemma_record_type_round_trip(out@[i].record_type);
            assert(t[k] == record_row(out@[i]));
        };
    }
    Ok(out)
}

/// Keeps exactly the records whose kind is `record_type`, given that `all`
/// lists exactly the rows of `t`.
#[verifier::rlimit(60)]
#[verifier::loop_isolation(false)]
fn filter_by_type(all: Vec<FinancialRecord>, record_type: RecordType, Ghost(t): Ghost<
    Map<Seq<char>, StoredRow>,
>) -> (r: Vec<FinancialRecord>)
    requires
        records_match_table(all@, t),
    ensures
        records_match_table_kind(r@, t, record_type),
{
    let ghost all0: Seq<FinancialRecord> = all@;
    let mut rest = all;
    let mut out: Vec<FinancialRecord> = Vec::new();
    let ghost mut idxs: Seq<int> = Seq::<int>::empty();
    while rest.len() > 0
        invariant
            rest@.len() <= all0.len(),
            forall|i: int| 0 <= i < rest@.len() ==> rest@[i] == all0[i],
            idxs.len() == out@.len(),
            forall|m: int| 0 <= m < idxs.len() ==> rest@.len() <= #[trigger] idxs[m] < all0.len(),
            forall|m: int| 0 <= m < out@.len() ==> all0[idxs[m]] == (#[trigger] out@[m]),
            forall|m: int| 0 <= m < out@.len() ==> (#[trigger] out@[m]).record_type == record_type,
            forall|m1: int, m2: int| 0 <= m1 < m2 < idxs.len() ==> idxs[m1] > idxs[m2],
            forall|i: int|
                rest@.len() <= i < all0.len() && (#[trigger] all0[i]).record_type == record_type
                    ==> exists|m: int| 0 <= m < idxs.len() && idxs[m] == i,
        decreases rest@.len(),
    {
        let ghost pos: int = rest@.len() - 1;
        let ghost idxs_pre = idxs;
        let ghost out_pre = out@;
        let rec = rest.pop().unwrap();
        proof {
            assert(rec == all0[pos]);
            assert(rest@.len() == pos);
        }
        if rec.record_type == record_type {
            out.push(rec);
            proof {
                idxs = idxs_pre.push(pos);
                assert(idxs[idxs.len() - 1] == pos && out@[out@.len() - 1] == rec);
                assert forall|m: int|
                    0 <= m < idxs.len() implies pos <= #[trigger] idxs[m] < all0.len() by {
                    if m < idxs_pre.len() {
                        assert(idxs[m] == idxs_pre[m]);
                    }
                };
                assert forall|m: int|
                    0 <= m < out@.len() implies all0[idxs[m]] == (#[trigger] out@[m])
                        && out@[m].record_type == record_type by {
                    if m < idxs_pre.len() {
                        assert(idxs[m] == idxs_pre[m] && out@[m] == out_pre[m]);
                    } else {
                        assert(idxs[m] == pos && out@[m] == rec);
                    }
                };
                assert forall|i: int|
                    pos <= i < all0.len() && (#[trigger] all0[i]).record_type == record_type implies exists|m: int|
                    0 <= m < idxs.len() && idxs[m] == i by {
                    if i == pos {
                        assert(idxs[idxs.len() - 1] == i);
                    } else {
                        let m = choose|m: int| 0 <= m < idxs_pre.len() && #[trigger] idxs_pre[m] == i;
                        assert(idxs[m] == i);
                    }
                };
            }
        } else {
            proof {
                assert forall|m: int|
                    0 <= m < idxs.len() implies pos <= #[trigger] idxs[m] < all0.len() by {
                    assert(pos + 1 <= idxs[m]);
                };
            }
        }
    }
    proof {
        assert forall|m: int|
            0 <= m < out@.len() implies t.contains_key((#[trigger] out@[m]).id@) && t[out@[m].id@]
            == record_row(out@[m]) by {
            assert(all0[idxs[m]] == out@[m]);
        };
        assert forall|m1: int, m2: int| 0 <= m1 < m2 < out@.len() implies out@[m1].id@
            != out@[m2].id@ by {
            assert(all0[idxs[m2]].id@ != all0[idxs[m1]].id@);
        };
        assert forall|k: Seq<char>|
            t.contains_key(k) && (#[trigger] t[k]).3 == record_type_text(record_type) implies exists|i: int|
            0 <= i < out@.len() && (#[trigger] out@[i]).id@ == k by {
            let i = choose|i: int| 0 <= i < all0.len() && (#[trigger] all0[i]).id@ == k;
            assert(t[k] == record_row(all0[i]));
            lemma_record_type_text_injective(all0[i].record_type, record_type);
            let m = choose|m: int| 0 <= m < idxs.len() && #[trigger] idxs[m] == i;
            assert(out@[m].id@ == k);
        };
    }
    out
}

/// Fetches exactly the records of the given kind, in unspecified order. The
/// whole table is read and parsed, so a corrupt row anywhere fails the read.
pub fn get_records_by_type(conn: &rusqlite::Connection, record_type: RecordType) -> (r: Result<
    Vec<FinancialRecord>,
    RepoError,
>)
    ensures
        r matches Ok(v) ==> records_match_table_kind(v@, table_of(*conn), record_type) && table_wf(
            table_of(*conn),
        ),
        r matches Err(RepoError::Corrupt(_, _)) ==> !table_wf(table_of(*conn)),
        r matches Err(e) ==> e matches RepoError::Corrupt(_, _) || e is Underlying,
{
    match get_records(conn) {
        Ok(all) => Ok(filter_by_type(all, record_type, Ghost(table_of(*conn)))),
        Err(e) => Err(e),
    }
}

/// Keeps exactly the records whose frequency is `freq`, given that `all`
/// lists exactly the rows of `t`.
#[verifier::rlimit(60)]
#[verifier::loop_isolation(false)]
fn filter_by_freq(all: Vec<FinancialRecord>, freq: Frequency, Ghost(t): Ghost<
    Map<Seq<char>, StoredRow>,
>) -> (r: Vec<FinancialRecord>)
    requires
        records_match_table(all@, t),
    ensures
        records_match_table_freq(r@, t, freq),
{
    let ghost all0: Seq<FinancialRecord> = all@;
    let mut rest = all;
    let mut out: Vec<FinancialRecord> = Vec::new();
    let ghost mut idxs: Seq<int> = Seq::<int>::empty();
    while rest.len() > 0
        invariant
            rest@.len() <= all0.len(),
            forall|i: int| 0 <= i < rest@.len() ==> rest@[i] == all0[i],
            idxs.len() == out@.len(),
            forall|m: int| 0 <= m < idxs.len() ==> rest@.len() <= #[trigger] idxs[m] < all0.len(),
            forall|m: int| 0 <= m < out@.len() ==> all0[idxs[m]] == (#[trigger] out@[m]),
            forall|m: int| 0 <= m < out@.len() ==> (#[trigger] out@[m]).frequency == freq,
            forall|m1: int, m2: int| 0 <= m1 < m2 < idxs.len() ==> idxs[m1] > idxs[m2],
            forall|i: int|
                rest@.len() <= i < all0.len() && (#[trigger] all0[i]).frequency == freq
                    ==> exists|m: int| 0 <= m < idxs.len() && idxs[m] == i,
        decreases rest@.len(),
    {
        let ghost pos: int = rest@.len() - 1;
        let ghost idxs_pre = idxs;
        let ghost out_pre = out@;
        let rec = rest.pop().unwrap();
        proof {
            assert(rec == all0[pos]);
            assert(rest@.len() == pos);
        }
        if rec.frequency == freq {
            out.push(rec);
            proof {
                idxs = idxs_pre.push(pos);
                assert(idxs[idxs.len() - 1] == pos && out@[out@.len() - 1] == rec);
                assert forall|m: int|
                    0 <= m < idxs.len() implies pos <= #[trigger] idxs[m] < all0.len() by {
                    if m < idxs_pre.len() {
                        assert(idxs[m] == idxs_pre[m]);
                    }
                };
                assert forall|m: int|
                    0 <= m < out@.len() implies all0[idxs[m]] == (#[trigger] out@[m])
                        && out@[m].frequency == freq by {
                    if m < idxs_pre.len() {
                        assert(idxs[m] == idxs_pre[m] && out@[m] == out_pre[m]);
                    } else {
                        assert(idxs[m] == pos && out@[m] == rec);
                    }
                };
                assert forall|i: int|
                    pos <= i < all0.len() && (#[trigger] all0[i]).frequency == freq implies exists|m: int|
                    0 <= m < idxs.len() && idxs[m] == i by {
                    if i == pos {
                        assert(idxs[idxs.len() - 1] == i);
                    } else {
                        let m = choose|m: int| 0 <= m < idxs_pre.len() && #[trigger] idxs_pre[m] == i;
                        assert(idxs[m] == i);
                    }
                };
            }
        } else {
            proof {
                assert forall|m: int|
                    0 <= m < idxs.len() implies pos <= #[trigger] idxs[m] < all0.len() by {
                    assert(pos + 1 <= idxs[m]);
                };
            }
        }
    }
    proof {
        assert forall|m: int|
            0 <= m < out@.len() implies t.contains_key((#[trigger] out@[m]).id@) && t[out@[m].id@]
            == record_row(out@[m]) by {
            assert(all0[idxs[m]] == out@[m]);
        };
        assert forall|m1: int, m2: int| 0 <= m1 < m2 < out@.len() implies out@[m1].id@
            != out@[m2].id@ by {
            assert(all0[idxs[m2]].id@ != all0[idxs[m1]].id@);
        };
        assert forall|k: Seq<char>|
            t.contains_key(k) && (#[trigger] t[k]).2 == frequency_text(freq) implies exists|i: int|
            0 <= i < out@.len() && (#[trigger] out@[i]).id@ == k by {
            let i = choose|i: int| 0 <= i < all0.len() && (#[trigger] all0[i]).id@ == k;
            assert(t[k] == record_row(all0[i]));
            lemma_frequency_text_injective(all0[i].frequency, freq);
            let m = choose|m: int| 0 <= m < idxs.len() && #[trigger] idxs[m] == i;
            assert(out@[m].id@ == k);
        };
    }
    out
}

/// Fetches exactly the records with the given frequency, in unspecified order. The
/// whole table is read and parsed, so a corrupt row anywhere fails the read.
pub fn get_records_by_freq(conn: &rusqlite::Connection, freq: Frequency) -> (r: Result<
    Vec<FinancialRecord>,
    RepoError,
>)
    ensures
        r matches Ok(v) ==> records_match_table_freq(v@, table_of(*conn), freq) && table_wf(
            table_of(*conn),
        ),
        r matches Err(RepoError::Corrupt(_, _)) ==> !table_wf(table_of(*conn)),
        r matches Err(e) ==> e matches RepoError::Corrupt(_, _) || e is Underlying,
{
    match get_records(conn) {
        Ok(all) => Ok(filter_by_freq(all, freq, Ghost(table_of(*conn)))),
        Err(e) => Err(e),
    }
}

} // verus!
