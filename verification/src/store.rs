//! The trusted boundary to the embedded SQL engine.
//!
//! Everything the library believes about the store is written here, as the
//! contracts of a handful of wrappers around `rusqlite`, each around one
//! fixed statement.  `tbl` names the contents of the `items` table behind a
//! connection: the sequence of its rows in ascending id order.  The model
//! takes the connection to be the table's only handle, and an existing
//! `items` table to be one the schema statement below created, which is
//! how the catalog uses it: one connection, opened once, used under
//! exclusive access, against its own table.
//!
//! The statements either carry no caller data at all (the schema), or bind
//! every caller value as a parameter; the query wrapper additionally
//! requires its statement text and parameters to be exactly the compiled
//! form of the query it is asked to run, so its contract can speak of the
//! query's declarative meaning.

use vstd::prelude::*;
use rusqlite::params_from_iter;
use rusqlite::types::Value;
use crate::filter::{query_admits, query_params, query_sql, SqlValue, SqlValueM, StoreQuery};
use crate::row::{RawRow, RowModel};

verus! {

#[verifier::external_type_specification]
#[verifier::external_body]
pub struct ExConnection(rusqlite::Connection);

#[verifier::external_type_specification]
#[verifier::external_body]
pub struct ExSqlError(rusqlite::Error);

/// The rows of the `items` table behind a connection, in ascending id
/// order; empty while the table does not exist.
pub uninterp spec fn tbl(c: rusqlite::Connection) -> Seq<RowModel>;

/// Row ids strictly ascend, so each id names at most one row.
pub open spec fn ids_ascend(rows: Seq<RowModel>) -> bool {
    forall|i: int, j: int| 0 <= i < j < rows.len() ==> rows[i].id < rows[j].id
}

/// Relies on `rusqlite::Connection::open_in_memory`: a fresh in-memory
/// database holds no tables, so its `items` table has no rows.
#[verifier::external_body]
pub(crate) fn open_memory() -> (r: Result<rusqlite::Connection, rusqlite::Error>)
    ensures
        r matches Ok(c) ==> tbl(c) == Seq::<RowModel>::empty(),
{
    rusqlite::Connection::open_in_memory()
}

/// Relies on `rusqlite::Connection::open`: opens the database at the path,
/// creating an empty one when none exists.  Nothing is assumed about the
/// rows it holds.
#[verifier::external_body]
pub(crate) fn open_at(path: &str) -> (r: Result<rusqlite::Connection, rusqlite::Error>) {
    rusqlite::Connection::open(path)
}

/// Relies on `rusqlite::Connection::execute` running a fixed
/// `CREATE TABLE IF NOT EXISTS`: an existing `items` table is left exactly
/// as it is, a missing one is created empty, and the id column is an
/// `INTEGER PRIMARY KEY`, so ids strictly ascend in id order.
#[verifier::external_body]
pub(crate) fn create_table(conn: &mut rusqlite::Connection) -> (r: Result<(), rusqlite::Error>)
    ensures
        r is Ok ==> tbl(*final(conn)) == tbl(*old(conn)) && ids_ascend(tbl(*final(conn))),
        r is Err ==> tbl(*final(conn)) == tbl(*old(conn)),
{
    let schema = "CREATE TABLE IF NOT EXISTS items (id INTEGER PRIMARY KEY AUTOINCREMENT, name TEXT NOT NULL, description TEXT NOT NULL, category TEXT NOT NULL, action TEXT NOT NULL, date_added TEXT NOT NULL, last_updated TEXT NOT NULL, age_years INTEGER, date_acquired TEXT, purchase_price INTEGER, estimated_value INTEGER, creator TEXT, working INTEGER, provenance TEXT, deleted INTEGER NOT NULL DEFAULT 0)";
    conn.execute(schema, ())?;
    Ok(())
}

/// Relies on `rusqlite::Connection::execute` running a fixed `INSERT` that
/// binds every column but `id`, and on
/// `rusqlite::Connection::last_insert_rowid` right after it.  With an
/// `AUTOINCREMENT` key the new rowid is strictly larger than every rowid
/// the table has ever held, so the new row lands at the end of the id
/// order.  A failed insert changes nothing.
#[verifier::external_body]
pub(crate) fn insert_row(conn: &mut rusqlite::Connection, r: &RawRow) -> (res: Result<
    i64,
    rusqlite::Error,
>)
    ensures
        res matches Ok(id) ==> (forall|j: int|
            0 <= j < tbl(*old(conn)).len() ==> (#[trigger] tbl(*old(conn))[j].id) < id as int)
            && tbl(*final(conn)) == tbl(*old(conn)).push(RowModel { id: id as int, ..r@ }),
        res is Err ==> tbl(*final(conn)) == tbl(*old(conn)),
{
    let sql = "INSERT INTO items (name, description, category, action, date_added, last_updated, age_years, date_acquired, purchase_price, estimated_value, creator, working, provenance, deleted) VALUES (?1, ?2, ?3, ?4, ?5, ?6, ?7, ?8, ?9, ?10, ?11, ?12, ?13, ?14)";
    conn.execute(sql, (&r.1, &r.2, &r.3, &r.4, &r.5, &r.6, &r.7, &r.8, &r.9, &r.10, &r.11, &r.12, &r.13, &r.14))?;
    Ok(conn.last_insert_rowid())
}

/// Relies on `rusqlite::Connection::execute` running a fixed full-row
/// `UPDATE ... WHERE id = ?`: every row whose id matches — at most one,
/// since id is the primary key — takes exactly the given column values,
/// every other row is untouched, and the count of affected rows comes
/// back.  A failed update changes nothing.
#[verifier::external_body]
pub(crate) fn update_row(conn: &mut rusqlite::Connection, r: &RawRow) -> (res: Result<
    usize,
    rusqlite::Error,
>)
    ensures
        res matches Ok(n) ==> {
            &&& tbl(*final(conn)).len() == tbl(*old(conn)).len()
            &&& (forall|j: int|
                0 <= j < tbl(*old(conn)).len() ==> (#[trigger] tbl(*final(conn))[j]) == (if tbl(
                    *old(conn),
                )[j].id == r@.id {
                    r@
                } else {
                    tbl(*old(conn))[j]
                }))
            &&& (n == 0) == (forall|j: int|
                0 <= j < tbl(*old(conn)).len() ==> (#[trigger] tbl(*old(conn))[j].id) != r@.id)
        },
        res is Err ==> tbl(*final(conn)) == tbl(*old(conn)),
{
    let sql = "UPDATE items SET name = ?2, description = ?3, category = ?4, action = ?5, date_added = ?6, last_updated = ?7, age_years = ?8, date_acquired = ?9, purchase_price = ?10, estimated_value = ?11, creator = ?12, working = ?13, provenance = ?14, deleted = ?15 WHERE id = ?1";
    let n = conn.execute(sql, (&r.0, &r.1, &r.2, &r.3, &r.4, &r.5, &r.6, &r.7, &r.8, &r.9, &r.10, &r.11, &r.12, &r.13, &r.14))?;
    Ok(n)
}

#[verifier::external_type_specification]
#[verifier::external_body]
pub struct ExRow<'a>(rusqlite::Row<'a>);

/// Relies on `rusqlite::Row::get`: reads one fetched row's fifteen columns
/// into a `RawRow`, in column order.
#[verifier::external_body]
fn read_row<'a>(w: &rusqlite::Row<'a>) -> (res: Result<RawRow, rusqlite::Error>) {
    Ok(RawRow(
        w.get(0)?, w.get(1)?, w.get(2)?, w.get(3)?, w.get(4)?, w.get(5)?, w.get(6)?, w.get(7)?,
        w.get(8)?, w.get(9)?, w.get(10)?, w.get(11)?, w.get(12)?, w.get(13)?, w.get(14)?,
    ))
}

/// Relies on `rusqlite::Connection::prepare` and `Statement::query_map`,
/// with `read_row` decoding each fetched row.  The statement text and
/// parameters are required to be exactly what the verified compiler
/// produces for `q`, and for that statement the engine returns, in id
/// order, exactly the rows the query admits: each predicate mirrors one
/// criterion — `instr` is a case-sensitive contains check, text and integer
/// comparisons are the lexicographic and numeric orders, a `NULL` column
/// satisfies no predicate, and `ORDER BY id` fixes the order.
#[verifier::external_body]
pub(crate) fn run_query(
    conn: &rusqlite::Connection,
    q: &StoreQuery,
    sql: &str,
    ps: &Vec<SqlValue>,
) -> (res: Result<Vec<RawRow>, rusqlite::Error>)
    requires
        sql@ == query_sql(*q),
        ps@.map_values(|x: SqlValue| x@) == query_params(*q),
    ensures
        res matches Ok(v) ==> v@.map_values(|x: RawRow| x@) == tbl(*conn).filter(
            |m: RowModel| query_admits(*q, m),
        ),
{
    let args = params_from_iter(ps.iter().map(|p| match p {
        SqlValue::Int(v) => Value::Integer(*v),
        SqlValue::Text(s) => Value::Text(s.clone()),
    }));
    let mut stmt = conn.prepare(sql)?;
    let rows = stmt.query_map(args, |w| read_row(w))?;
    rows.collect()
}

/// Relies on `chrono::Local::now` and `chrono::NaiveDate`'s accessors: the
/// clock yields some real calendar day, read as year, month and day.
/// Nothing ties the value to anything but the machine's clock.
#[verifier::external_body]
pub(crate) fn today_parts() -> (r: (i32, u32, u32))
    ensures
        1 <= r.1 <= 12,
        1 <= r.2 <= crate::dates::days_in_month(r.0 as int, r.1 as int),
{
    let d = chrono::Local::now().date_naive();
    (chrono::Datelike::year(&d), chrono::Datelike::month(&d), chrono::Datelike::day(&d))
}

/// Relies on `rusqlite::Error`'s `Display` implementation through
/// `ToString`: renders the engine's error for the library's storage error.
#[verifier::external_body]
pub(crate) fn err_text(e: &rusqlite::Error) -> String {
    e.to_string()
}

} // verus!
