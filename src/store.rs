//! Access to the SQLite store through rusqlite.
//!
//! What a statement does to the store depends on what the file holds, so the
//! items here promise nothing of their results: the logic that reads them is
//! verified for every value they may return.
use vstd::prelude::*;
use rusqlite::{Connection, Transaction};
use rusqlite::Error as SqlError;
use rusqlite::types::Value;
use crate::models::Datapoint;

verus! {

#[verifier::external_type_specification]
#[verifier::external_body]
pub struct ExConnection(rusqlite::Connection);

#[verifier::external_type_specification]
#[verifier::external_body]
pub struct ExTransaction<'conn>(rusqlite::Transaction<'conn>);

#[verifier::external_type_specification]
#[verifier::external_body]
pub struct ExSqlError(SqlError);

/// A value bound to a `?` placeholder of a statement.
pub enum SqlParam {
    Integer(i64),
    Text(String),
}

/// What a [`SqlParam`] holds.
pub enum ParamModel {
    Integer(int),
    Text(Seq<char>),
}

impl View for SqlParam {
    type V = ParamModel;

    open spec fn view(&self) -> ParamModel {
        match self {
            SqlParam::Integer(i) => ParamModel::Integer(*i as int),
            SqlParam::Text(t) => ParamModel::Text(t@),
        }
    }
}

/// A statement and the values bound to its placeholders, in order.
pub struct Statement {
    pub sql: &'static str,
    pub params: Vec<SqlParam>,
}

/// What a [`Statement`] holds.
pub struct StatementModel {
    pub sql: Seq<char>,
    pub params: Seq<ParamModel>,
}

impl View for Statement {
    type V = StatementModel;

    open spec fn view(&self) -> StatementModel {
        StatementModel { sql: self.sql@, params: self.params@.map_values(|p: SqlParam| p@) }
    }
}

/// Either of the two contexts in which statements run: a bare connection, where
/// each statement is durable on its own, or an open transaction, where they
/// become durable together at its commit.
pub trait ConnectionLike {
    fn connection(&self) -> &Connection;
}

impl ConnectionLike for Connection {
    fn connection(&self) -> &Connection {
        self
    }
}

/// Relies on rusqlite's `Deref` of `Transaction`: the connection that the
/// transaction runs on.
#[verifier::external_body]
fn transaction_connection<'a>(tx: &'a Transaction<'_>) -> &'a Connection {
    tx
}

impl<'conn> ConnectionLike for Transaction<'conn> {
    fn connection(&self) -> &Connection {
        transaction_connection(self)
    }
}

/// Relies on rusqlite's `Connection::open`: opens the store at `path`,
/// creating the file where there is none.
#[verifier::external_body]
pub(crate) fn open(path: &str) -> (r: Result<Connection, SqlError>) {
    Connection::open(path)
}

/// Relies on rusqlite's `Connection::transaction`: begins a transaction that
/// rolls back when dropped uncommitted.
#[verifier::external_body]
pub(crate) fn begin(conn: &mut Connection) -> (r: Result<Transaction<'_>, SqlError>) {
    conn.transaction()
}

/// Relies on rusqlite's `Transaction::commit`.
#[verifier::external_body]
pub(crate) fn commit(tx: Transaction<'_>) -> (r: Result<(), SqlError>) {
    tx.commit()
}

/// Relies on rusqlite's `Connection::execute_batch`: runs each statement of
/// `sql` in turn, stopping at the first failure.
#[verifier::external_body]
pub(crate) fn execute_batch(conn: &Connection, sql: &str) -> (r: Result<(), SqlError>) {
    conn.execute_batch(sql)
}

/// Relies on rusqlite's `Connection::execute`: runs one statement with its
/// values bound in order, and returns the number of rows changed.
#[verifier::external_body]
pub(crate) fn execute(conn: &Connection, stmt: &Statement) -> (r: Result<usize, SqlError>) {
    let values = stmt.params.iter().map(|p| match p {
        SqlParam::Integer(i) => Value::Integer(*i),
        SqlParam::Text(t) => Value::Text(t.clone()),
    });
    conn.execute(stmt.sql, rusqlite::params_from_iter(values))
}

/// Relies on rusqlite's `Connection::last_insert_rowid`: the row id that the
/// latest successful insert on this connection was given.
#[verifier::external_body]
pub(crate) fn last_insert_rowid(conn: &Connection) -> (r: i64) {
    conn.last_insert_rowid()
}

/// Relies on rusqlite's `Statement::query_map`: the first column of each row
/// that the query returns, read as an integer, in the order of the rows.
#[verifier::external_body]
pub(crate) fn query_integers(conn: &Connection, query: &Statement) -> (r: Result<Vec<i64>, SqlError>) {
    let values = query.params.iter().map(|p| match p {
        SqlParam::Integer(i) => Value::Integer(*i),
        SqlParam::Text(t) => Value::Text(t.clone()),
    });
    let mut stmt = conn.prepare(query.sql)?;
    let rows = stmt.query_map(rusqlite::params_from_iter(values), |row| row.get::<usize, i64>(0))?;
    rows.collect()
}

/// Relies on rusqlite's `Statement::query_map`: each row that the query
/// returns, its columns read in order as id, description, experiment id, sha
/// and status.
#[verifier::external_body]
pub(crate) fn query_datapoints(conn: &Connection, query: &Statement) -> (r: Result<Vec<Datapoint>, SqlError>) {
    let values = query.params.iter().map(|p| match p {
        SqlParam::Integer(i) => Value::Integer(*i),
        SqlParam::Text(t) => Value::Text(t.clone()),
    });
    let mut stmt = conn.prepare(query.sql)?;
    let rows = stmt.query_map(rusqlite::params_from_iter(values), |row| Ok(Datapoint {
        id: row.get(0)?,
        description: row.get(1)?,
        experiment_id: row.get(2)?,
        sha: row.get(3)?,
        status: row.get(4)?,
    }))?;
    rows.collect()
}

/// Relies on the `Display` of rusqlite's `Error`: a description of the failure.
#[verifier::external_body]
pub(crate) fn error_text(e: &SqlError) -> (r: String) {
    e.to_string()
}

} // verus!
