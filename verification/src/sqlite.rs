//! The calls into `rusqlite` that the store makes. Their outcomes depend on
//! the database file, so little is promised of them; what each one is
//! handed is kept, in order, in a `SqlLog` that only this module adds to.

use vstd::prelude::*;

use crate::database::{optional_string_view, SqlArg};

verus! {

/// One call handed to SQLite: opening a file, running a batch of
/// statements, running one statement with its bound values, or querying
/// with its bound values.
pub enum SqlCall {
    Open(Seq<char>),
    Batch(Seq<char>),
    Execute(Seq<char>, Seq<SqlArg>),
    Query(Seq<char>, Seq<SqlArg>),
}

/// The calls that a store has handed to SQLite, oldest first. Only the
/// functions of this module add to it.
#[derive(Clone)]
pub struct SqlLog {
    calls: Ghost<Seq<SqlCall>>,
}

impl SqlLog {
    /// The calls, oldest first.
    pub closed spec fn calls(&self) -> Seq<SqlCall> {
        self.calls@
    }

    /// A log with no call in it.
    pub fn new() -> (r: SqlLog)
        ensures
            r.calls() == Seq::<SqlCall>::empty(),
    {
        SqlLog { calls: Ghost(Seq::empty()) }
    }
}

/// One column read from a result row: the column's index and, when the
/// read succeeded, the value it gave.
pub enum ColumnRead {
    Text(usize, Seq<char>),
    OptionalText(usize, Option<Seq<char>>),
    Integer(usize, i64),
    Failed(usize),
}

/// The columns read from one row, in order. Only the functions of this
/// module add to it.
pub struct RowReads {
    reads: Ghost<Seq<ColumnRead>>,
}

impl RowReads {
    /// The reads, oldest first.
    pub closed spec fn reads(&self) -> Seq<ColumnRead> {
        self.reads@
    }

    /// No read yet.
    pub fn new() -> (r: RowReads)
        ensures
            r.reads() == Seq::<ColumnRead>::empty(),
    {
        RowReads { reads: Ghost(Seq::empty()) }
    }
}

/// A prepared query and the SQL it was prepared from.
pub struct SqlQuery<'c> {
    statement: rusqlite::Statement<'c>,
    sql: Ghost<Seq<char>>,
}

impl<'c> SqlQuery<'c> {
    /// The SQL the query was prepared from.
    pub closed spec fn sql(&self) -> Seq<char> {
        self.sql@
    }
}

#[verifier::external_type_specification]
#[verifier::external_body]
pub struct ExConnection(rusqlite::Connection);

#[verifier::external_type_specification]
#[verifier::external_body]
pub struct ExSqliteError(rusqlite::Error);

#[verifier::external_type_specification]
#[verifier::external_body]
pub struct ExRow<'stmt>(rusqlite::Row<'stmt>);

/// Wraps `rusqlite::Connection::open`, and records in `log` that `path` was
/// opened. The outcome depends on the file system; nothing is promised of
/// it.
#[verifier::external_body]
pub(crate) fn open_connection(log: &mut SqlLog, path: &str) -> (r: Result<
    rusqlite::Connection,
    rusqlite::Error,
>)
    ensures
        final(log).calls() == old(log).calls().push(SqlCall::Open(path@)),
{
    rusqlite::Connection::open(path)
}

/// Wraps `rusqlite::Connection::execute_batch`, which runs each statement of
/// `sql` in turn, and records the batch in `log`. The outcome depends on the
/// database; nothing is promised of it.
#[verifier::external_body]
pub(crate) fn run_batch(log: &mut SqlLog, connection: &rusqlite::Connection, sql: &str) -> (r:
    Result<(), rusqlite::Error>)
    ensures
        final(log).calls() == old(log).calls().push(SqlCall::Batch(sql@)),
{
    connection.execute_batch(sql)
}

#[verifier::external_type_specification]
#[verifier::external_body]
pub struct ExStatement<'conn>(rusqlite::Statement<'conn>);

/// Wraps `rusqlite::Connection::execute` with `args` bound to `?1`, `?2`,
/// ... in order, each as the SQLite value of the same kind and content, and
/// records the statement and its values in `log`. The outcome depends on
/// the database; nothing is promised of it.
#[verifier::external_body]
pub(crate) fn run_statement(
    log: &mut SqlLog,
    connection: &rusqlite::Connection,
    sql: &str,
    args: Vec<SqlArg>,
) -> (r: Result<usize, rusqlite::Error>)
    ensures
        final(log).calls() == old(log).calls().push(SqlCall::Execute(sql@, args@)),
{
    connection.execute(
        sql,
        rusqlite::params_from_iter(
            args.into_iter().map(
                |arg| match arg {
                    SqlArg::Text(text) => rusqlite::types::Value::Text(text),
                    SqlArg::Integer(value) => rusqlite::types::Value::Integer(value),
                    SqlArg::Null => rusqlite::types::Value::Null,
                },
            ),
        ),
    )
}

/// Wraps `rusqlite::Connection::query_row`: `args` bound as for
/// `run_statement`, `read` is applied to the first row of the result, and
/// the query and its values are recorded in `log`. The outcome depends on
/// the database; nothing is promised of it.
#[verifier::external_body]
pub(crate) fn query_first<T, F>(
    log: &mut SqlLog,
    connection: &rusqlite::Connection,
    sql: &str,
    args: Vec<SqlArg>,
    read: F,
) -> (r: Result<T, rusqlite::Error>) where F: FnOnce(&rusqlite::Row<'_>) -> Result<T, rusqlite::Error>
    ensures
        final(log).calls() == old(log).calls().push(SqlCall::Query(sql@, args@)),
{
    connection.query_row(
        sql,
        rusqlite::params_from_iter(
            args.into_iter().map(
                |arg| match arg {
                    SqlArg::Text(text) => rusqlite::types::Value::Text(text),
                    SqlArg::Integer(value) => rusqlite::types::Value::Integer(value),
                    SqlArg::Null => rusqlite::types::Value::Null,
                },
            ),
        ),
        read,
    )
}

/// Wraps `rusqlite::Connection::prepare`; the query that comes back keeps
/// `sql`. Whether preparing succeeds depends on the database; nothing is
/// promised of it.
#[verifier::external_body]
pub(crate) fn prepare_statement<'c>(connection: &'c rusqlite::Connection, sql: &str) -> (r: Result<
    SqlQuery<'c>,
    rusqlite::Error,
>)
    ensures
        r matches Ok(query) ==> query.sql() == sql@,
{
    connection.prepare(sql).map(|statement| SqlQuery { statement, sql: Ghost(sql@) })
}

/// Wraps `rusqlite::Statement::query_map`: `args` bound as for
/// `run_statement`, `read` is applied to each row of the result in turn,
/// the first error stops the collection, and the query's SQL and values are
/// recorded in `log`. The outcome depends on the database; nothing is
/// promised of it.
#[verifier::external_body]
pub(crate) fn query_all<T, F>(
    log: &mut SqlLog,
    query: &mut SqlQuery<'_>,
    args: Vec<SqlArg>,
    read: F,
) -> (r: Result<Vec<T>, rusqlite::Error>) where F: FnMut(&rusqlite::Row<'_>) -> Result<T, rusqlite::Error>
    ensures
        final(log).calls() == old(log).calls().push(SqlCall::Query(old(query).sql(), args@)),
        final(query).sql() == old(query).sql(),
{
    query.statement.query_map(
        rusqlite::params_from_iter(
            args.into_iter().map(
                |arg| match arg {
                    SqlArg::Text(text) => rusqlite::types::Value::Text(text),
                    SqlArg::Integer(value) => rusqlite::types::Value::Integer(value),
                    SqlArg::Null => rusqlite::types::Value::Null,
                },
            ),
        ),
        read,
    )?.collect()
}

/// Wraps `rusqlite::Row::get` for a text column, and records in `reads`
/// the index read and the text it gave. The value is what the database
/// holds; nothing more is promised of it.
#[verifier::external_body]
pub(crate) fn column_text(reads: &mut RowReads, row: &rusqlite::Row<'_>, index: usize) -> (r: Result<
    String,
    rusqlite::Error,
>)
    ensures
        r matches Ok(v) ==> final(reads).reads() == old(reads).reads().push(
            ColumnRead::Text(index, v@),
        ),
        r is Err ==> final(reads).reads() == old(reads).reads().push(ColumnRead::Failed(index)),
{
    row.get(index)
}

/// Wraps `rusqlite::Row::get` for a nullable text column, and records in
/// `reads` the index read and the value it gave. The value is what the
/// database holds; nothing more is promised of it.
#[verifier::external_body]
pub(crate) fn column_optional_text(reads: &mut RowReads, row: &rusqlite::Row<'_>, index: usize) -> (r:
    Result<Option<String>, rusqlite::Error>)
    ensures
        r matches Ok(v) ==> final(reads).reads() == old(reads).reads().push(
            ColumnRead::OptionalText(index, optional_string_view(v)),
        ),
        r is Err ==> final(reads).reads() == old(reads).reads().push(ColumnRead::Failed(index)),
{
    row.get(index)
}

/// Wraps `rusqlite::Row::get` for an integer column, and records in `reads`
/// the index read and the integer it gave. The value is what the database
/// holds; nothing more is promised of it.
#[verifier::external_body]
pub(crate) fn column_integer(reads: &mut RowReads, row: &rusqlite::Row<'_>, index: usize) -> (r:
    Result<i64, rusqlite::Error>)
    ensures
        r matches Ok(v) ==> final(reads).reads() == old(reads).reads().push(
            ColumnRead::Integer(index, v),
        ),
        r is Err ==> final(reads).reads() == old(reads).reads().push(ColumnRead::Failed(index)),
{
    row.get(index)
}

/// Wraps `rusqlite::OptionalExtension::optional`: a result is kept as
/// `Some`, the error of a query that returned no row becomes `None`, and any
/// other error is kept.
#[verifier::external_body]
pub(crate) fn optional_row<T>(outcome: Result<T, rusqlite::Error>) -> (r: Result<Option<T>, rusqlite::Error>)
    ensures
        outcome matches Ok(v) ==> r is Ok && r->Ok_0 == Some(v),
        outcome is Err ==> r is Err || (r is Ok && r->Ok_0 is None),
        r is Err ==> outcome is Err && r->Err_0 == outcome->Err_0,
{
    rusqlite::OptionalExtension::optional(outcome)
}

/// Wraps the construction of `rusqlite::Error::QueryReturnedNoRows`.
#[verifier::external_body]
pub(crate) fn no_rows_error() -> (r: rusqlite::Error) {
    rusqlite::Error::QueryReturnedNoRows
}

} // verus!
