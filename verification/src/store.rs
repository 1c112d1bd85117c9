//! The connection to the database file.

use crate::request::{Reply, ReplyView, Request};
use crate::task::Row;
use vstd::prelude::*;

verus! {

/// `rusqlite::Connection`, an open connection to a database. Nothing inside
/// it is visible here.
#[verifier::external_type_specification]
#[verifier::external_body]
pub struct ExConnection(rusqlite::Connection);

/// `rusqlite::Error`, whatever went wrong in a call. It is only ever told
/// apart from success.
#[verifier::external_type_specification]
#[verifier::external_body]
pub struct ExSqliteError(rusqlite::Error);

/// `rusqlite::Statement`, a statement compiled for one connection. Nothing
/// inside it is visible here.
#[verifier::external_type_specification]
#[verifier::external_body]
pub struct ExPrepared<'conn>(rusqlite::Statement<'conn>);

/// Calls `rusqlite::Connection::open`, which opens the database file at
/// `path` and creates it if it is not there. The one thing claimed is what
/// its documentation says of a path that cannot be turned into a C string:
/// a path that holds a NUL character is refused. For every other path the
/// machine decides whether the file can be opened.
#[verifier::external_body]
fn open_connection(path: &str) -> (out: Result<rusqlite::Connection, rusqlite::Error>)
    ensures
        path@.contains('\0') ==> out is Err,
{
    rusqlite::Connection::open(path)
}

/// Calls `rusqlite::Connection::execute` with the values of `params` bound,
/// as text, to the parameters of `sql` in their order
/// (`rusqlite::params_from_iter`). On success the count is what SQLite
/// reports as the number of rows changed. Nothing is claimed of the result:
/// it depends on what the database holds.
#[verifier::external_body]
fn execute_statement(conn: &rusqlite::Connection, sql: &str, params: &Vec<String>) -> (out: Result<
    usize,
    rusqlite::Error,
>) {
    conn.execute(sql, rusqlite::params_from_iter(params.iter()))
}

/// Calls `rusqlite::Connection::prepare`, which compiles `sql` for this
/// connection. Nothing is claimed of the result: whether the statement
/// compiles depends on the tables that the database holds.
#[verifier::external_body]
fn prepare_statement<'conn>(conn: &'conn rusqlite::Connection, sql: &str) -> (out: Result<
    rusqlite::Statement<'conn>,
    rusqlite::Error,
>) {
    conn.prepare(sql)
}

/// Calls `rusqlite::Statement::query_map` with the values of `params` bound
/// as in [`execute_statement`], and collects the rows. Each row is read by
/// position: an integer, two texts, and a text or no value. A row that holds
/// anything else makes the whole call fail. Nothing is claimed of the
/// result: it depends on what the database holds.
#[verifier::external_body]
fn query_rows(prepared: &mut rusqlite::Statement<'_>, params: &Vec<String>) -> (out: Result<
    Vec<Row>,
    rusqlite::Error,
>) {
    let rows = prepared.query_map(rusqlite::params_from_iter(params.iter()), |row| {
        Ok(Row {
            id: row.get(0)?,
            title: row.get(1)?,
            status: row.get(2)?,
            description: row.get(3)?,
        })
    })?;
    rows.collect()
}

/// The database file could not be opened.
#[derive(Clone, Copy, Debug, PartialEq, Eq, Structural)]
pub struct OpenError;

/// The one connection of an invocation to its database file. It is released
/// when the value is dropped.
pub struct Store {
    conn: rusqlite::Connection,
}

impl Reply {
    /// The reply that stands for what the store gave back to a statement
    /// that changes it: the count of changed rows, or a failure, whatever
    /// the error was.
    pub fn from_changed(result: Result<usize, rusqlite::Error>) -> (out: Reply)
        ensures
            match result {
                Ok(changed) => out@ == ReplyView::Changed(changed),
                Err(_) => out@ == ReplyView::Failed,
            },
    {
        match result {
            Ok(changed) => Reply::Changed(changed),
            Err(_) => Reply::Failed,
        }
    }

    /// The reply that stands for what the store gave back to the listing:
    /// the rows as they came, or a failure, whatever the error was.
    pub fn from_rows(result: Result<Vec<Row>, rusqlite::Error>) -> (out: Reply)
        ensures
            match result {
                Ok(rows) => out@ == ReplyView::Rows(rows.deep_view()),
                Err(_) => out@ == ReplyView::Failed,
            },
    {
        match result {
            Ok(rows) => Reply::Rows(rows),
            Err(_) => Reply::Failed,
        }
    }
}

impl Store {
    /// Opens the database file at `path`, creating it if it is not there. A
    /// path that holds a NUL character names no file and is refused; whether
    /// any other path can be opened is for the machine to say.
    pub fn open(path: &str) -> (out: Result<Store, OpenError>)
        ensures
            path@.contains('\0') ==> out is Err,
    {
        match open_connection(path) {
            Ok(conn) => Ok(Store { conn }),
            Err(_) => Err(OpenError),
        }
    }

    /// Runs one statement and hands back what the store answered, as
    /// [`Reply::from_rows`] reads it for the listing and
    /// [`Reply::from_changed`] for every other statement. What the answer
    /// holds is the store's affair; its kind is that of the statement.
    pub fn perform(&self, request: &Request) -> (out: Reply)
        ensures
            out@.answers(request@.kind),
    {
        if request.kind.is_query() {
            match prepare_statement(&self.conn, request.sql()) {
                Ok(mut prepared) => Reply::from_rows(query_rows(&mut prepared, &request.params)),
                Err(error) => Reply::from_rows(Err(error)),
            }
        } else {
            Reply::from_changed(execute_statement(&self.conn, request.sql(), &request.params))
        }
    }
}

} // verus!
