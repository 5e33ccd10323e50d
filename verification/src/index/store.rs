use rusqlite::types::Value;
use rusqlite::{Connection, Transaction};
use vstd::prelude::*;

verus! {

/// `rusqlite::Connection`, an open database; nothing inside it is read here.
#[verifier::external_type_specification]
#[verifier::external_body]
pub struct ExConnection(Connection);

/// `rusqlite::Transaction`, a transaction that runs on a connection.
#[verifier::external_type_specification]
#[verifier::external_body]
pub struct ExTransaction<'conn>(Transaction<'conn>);

/// `rusqlite::Error`, why the store failed; it is only handed on.
#[verifier::external_type_specification]
#[verifier::external_body]
pub struct ExStoreError(rusqlite::Error);

/// `rusqlite::types::Value`, one value of a row or a parameter, with its
/// five variants as the crate declares them.
#[verifier::external_type_specification]
pub struct ExValue(Value);

/// Calls `rusqlite::Connection::open`, which opens the database file at
/// `path` or creates it. Nothing is claimed of the outcome.
#[verifier::external_body]
pub(crate) fn open(path: &str) -> (r: Result<Connection, rusqlite::Error>) {
    Connection::open(path)
}

/// Calls `rusqlite::Connection::execute` with the values as the statement's
/// parameters. Nothing is claimed of the outcome: it depends on what the
/// database holds.
#[verifier::external_body]
pub(crate) fn execute(conn: &Connection, sql: &str, params: &Vec<Value>) -> (r: Result<
    usize,
    rusqlite::Error,
>) {
    conn.execute(sql, rusqlite::params_from_iter(params.iter()))
}

/// Calls `rusqlite::Connection::prepare` and `rusqlite::Statement::query_map`
/// and hands out the first `width` columns of every row
/// (`rusqlite::Row::get`). Nothing is claimed of the outcome: it depends on
/// what the database holds.
#[verifier::external_body]
pub(crate) fn query(conn: &Connection, sql: &str, params: &Vec<Value>, width: usize) -> (r: Result<
    Vec<Vec<Value>>,
    rusqlite::Error,
>) {
    let mut statement = conn.prepare(sql)?;
    let rows = statement.query_map(rusqlite::params_from_iter(params.iter()), |row| {
        (0..width).map(|i| row.get::<usize, Value>(i)).collect::<Result<Vec<Value>, rusqlite::Error>>()
    })?;
    rows.collect()
}

/// Calls `rusqlite::Connection::last_insert_rowid`. Nothing is claimed of
/// the number.
#[verifier::external_body]
pub(crate) fn last_insert_rowid(conn: &Connection) -> (id: i64) {
    conn.last_insert_rowid()
}

/// Calls `rusqlite::Connection::transaction`. What runs on the transaction
/// is undone when it is dropped without a commit.
#[verifier::external_body]
pub(crate) fn begin<'conn>(conn: &'conn mut Connection) -> (r: Result<
    Transaction<'conn>,
    rusqlite::Error,
>) {
    conn.transaction()
}

/// The connection that a transaction runs on (`Deref` of
/// `rusqlite::Transaction`).
#[verifier::external_body]
pub(crate) fn connection_of<'a, 'conn>(tx: &'a Transaction<'conn>) -> (conn: &'a Connection) {
    tx
}

/// Calls `rusqlite::Transaction::commit`. Nothing is claimed of the outcome.
#[verifier::external_body]
pub(crate) fn commit<'conn>(tx: Transaction<'conn>) -> (r: Result<(), rusqlite::Error>) {
    tx.commit()
}

} // verus!
