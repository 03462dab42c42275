//! The embedded SQL engine, as far as the store uses it.
//!
//! Every function here hands one request to the engine and brings back what
//! the engine answered, as plain values. What the engine answers depends on
//! the database file, so nothing is promised about it; the store decides what
//! each answer means.

use vstd::prelude::*;

verus! {

#[verifier::external_type_specification]
#[verifier::external_body]
pub struct ExConnection(rusqlite::Connection);

#[verifier::external_type_specification]
#[verifier::external_body]
pub struct ExPath(std::path::Path);

/// One row of a key listing as the engine decoded it, or the text of the
/// decoding failure.
pub type ListedRow = Result<(String, i64), String>;

/// Calls `rusqlite::Connection::open`, which opens the database file at
/// `path` and creates it if it is absent. A failure comes back as its text.
#[verifier::external_body]
pub(crate) fn open_database(path: &std::path::Path) -> (r: Result<rusqlite::Connection, String>) {
    rusqlite::Connection::open(path).map_err(|e| e.to_string())
}

/// Calls `rusqlite::Connection::execute` on a statement without parameters.
/// On success the engine's count of changed rows comes back.
#[verifier::external_body]
pub(crate) fn execute_plain(conn: &rusqlite::Connection, sql: &str) -> (r: Result<usize, String>) {
    conn.execute(sql, ()).map_err(|e| e.to_string())
}

/// Calls `rusqlite::Connection::execute` with a text, an integer and a blob
/// bound to `?1`, `?2` and `?3`. On success the engine's count of changed rows
/// comes back.
#[verifier::external_body]
pub(crate) fn execute_row(
    conn: &rusqlite::Connection,
    sql: &str,
    key: &str,
    secs: i64,
    data: &[u8],
) -> (r: Result<usize, String>) {
    conn.execute(sql, (key, secs, data)).map_err(|e| e.to_string())
}

/// Calls `rusqlite::Connection::execute` with one integer bound to `?1`. On
/// success the engine's count of changed rows comes back.
#[verifier::external_body]
pub(crate) fn execute_bound(conn: &rusqlite::Connection, sql: &str, bound: i64) -> (r: Result<
    usize,
    String,
>)
    opens_invariants none
    no_unwind
{
    conn.execute(sql, (bound,)).map_err(|e| e.to_string())
}

/// Calls `rusqlite::Connection::query_row` with a text and an integer bound to
/// `?1` and `?2`, reads column 0 of the first row as a nullable blob, and
/// applies `OptionalExtension::optional`.
///
/// `Ok(None)` stands for "no row", `Ok(Some(None))` for a row whose column is
/// SQL `NULL`, `Ok(Some(Some(bytes)))` for a row with a blob.
#[verifier::external_body]
pub(crate) fn query_blob(conn: &rusqlite::Connection, sql: &str, key: &str, secs: i64) -> (r: Result<
    Option<Option<Vec<u8>>>,
    String,
>) {
    let found = conn.query_row(sql, (key, secs), |row| row.get::<_, Option<Vec<u8>>>(0));
    rusqlite::OptionalExtension::optional(found).map_err(|e| e.to_string())
}

/// Calls `rusqlite::Connection::prepare` and `Statement::query_map` on a
/// statement without parameters, reading columns 0 and 1 of every row as a
/// text and an integer.
///
/// The rows come back in the order in which the engine yielded them, each
/// either decoded or with the text of its decoding failure.
#[verifier::external_body]
pub(crate) fn query_keys(conn: &rusqlite::Connection, sql: &str) -> (r: Result<
    Vec<ListedRow>,
    String,
>) {
    let mut stmt = match conn.prepare(sql) {
        Ok(stmt) => stmt,
        Err(e) => return Err(e.to_string()),
    };
    let rows = stmt.query_map((), |row| row.get(0).and_then(|key| row.get(1).map(|ts| (key, ts))));
    match rows {
        Ok(rows) => Ok(rows.map(|row| row.map_err(|e| e.to_string())).collect()),
        Err(e) => Err(e.to_string()),
    }
}

/// Calls `std::time::SystemTime::elapsed` on `UNIX_EPOCH`: the system
/// clock's reading in whole seconds since the epoch, or `None` where the
/// clock reads earlier than the epoch. Nothing is promised about the value.
#[verifier::external_body]
pub(crate) fn clock_seconds() -> (now: Option<u64>)
    opens_invariants none
    no_unwind
{
    std::time::UNIX_EPOCH.elapsed().ok().map(|since| since.as_secs())
}

} // verus!
