//! The parts of rusqlite that the store relies on. Nothing is promised of
//! what the engine reads or writes: that lives in the database file.
use rusqlite::types::Value;
use rusqlite::Connection;
use rusqlite::Error as SqliteError;
use vstd::prelude::*;

use crate::data::row::{AddressRow, PersonRow, SqlValue};

verus! {

/// rusqlite's handle on one database; the store only carries it.
#[verifier::external_type_specification]
#[verifier::external_body]
pub struct ExConnection(Connection);

/// rusqlite's error, handed on to callers unchanged.
#[verifier::external_type_specification]
#[verifier::external_body]
pub struct ExSqliteError(SqliteError);

/// Relies on `Connection::last_insert_rowid`: the rowid of the connection's
/// latest successful insert, which the engine alone knows.
pub assume_specification[ Connection::last_insert_rowid ](conn: &Connection) -> i64;

/// Relies on `Connection::open_in_memory`: a fresh database that lives as
/// long as the connection.
pub assume_specification[ Connection::open_in_memory ]() -> Result<Connection, SqliteError>;

/// Relies on `Connection::open`: opens, or creates, the database file at `path`.
#[verifier::external_body]
pub(crate) fn open_connection(path: &str) -> (r: Result<Connection, SqliteError>) {
    Connection::open(path)
}

/// Relies on `Connection::execute`: runs `sql` with `params` bound in order,
/// and reports the number of rows changed.
#[verifier::external_body]
pub(crate) fn execute(conn: &Connection, sql: &str, params: &Vec<SqlValue>) -> (r: Result<
    usize,
    SqliteError,
>) {
    let values = params.iter().map(|p| match p {
        SqlValue::Null => Value::Null,
        SqlValue::Integer(i) => Value::Integer(*i),
        SqlValue::Text(s) => Value::Text(s.clone()),
    });
    conn.execute(sql, rusqlite::params_from_iter(values))
}

/// Relies on `Connection::prepare`, `Statement::query_map` and the tuple
/// conversion of `Row`: runs `sql` with `params` bound in order, and reads
/// each result row as the five columns of an address.
#[verifier::external_body]
pub(crate) fn query_address_rows(conn: &Connection, sql: &str, params: &Vec<SqlValue>) -> (r:
    Result<Vec<AddressRow>, SqliteError>) {
    let values = params.iter().map(|p| match p {
        SqlValue::Null => Value::Null,
        SqlValue::Integer(i) => Value::Integer(*i),
        SqlValue::Text(s) => Value::Text(s.clone()),
    });
    let mut stmt = conn.prepare(sql)?;
    let rows = stmt.query_map(rusqlite::params_from_iter(values), |row| AddressRow::try_from(row))?;
    rows.collect()
}

/// Relies on `Connection::prepare`, `Statement::query_map` and the tuple
/// conversion of `Row`: runs `sql` with `params` bound in order, and reads
/// each result row as the five columns of a person.
#[verifier::external_body]
pub(crate) fn query_person_rows(conn: &Connection, sql: &str, params: &Vec<SqlValue>) -> (r:
    Result<Vec<PersonRow>, SqliteError>) {
    let values = params.iter().map(|p| match p {
        SqlValue::Null => Value::Null,
        SqlValue::Integer(i) => Value::Integer(*i),
        SqlValue::Text(s) => Value::Text(s.clone()),
    });
    let mut stmt = conn.prepare(sql)?;
    let rows = stmt.query_map(rusqlite::params_from_iter(values), |row| PersonRow::try_from(row))?;
    rows.collect()
}

} // verus!
