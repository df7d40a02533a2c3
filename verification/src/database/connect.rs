//! Uniform, fail-safe wrappers around connection acquisition, statement
//! execution and pool construction: every driver failure is caught at the
//! point of delegation and converted into the shared error type.

use vstd::prelude::*;
use crate::env::get_env;
use crate::error::CustomError;

verus! {

/// Declares the driver's pool handle type; the library passes it around and
/// calls it only through the trusted wrappers below.
#[verifier::external_type_specification]
#[verifier::external_body]
pub struct ExPool(mysql::Pool);

/// Declares the driver's checked-out connection type.
#[verifier::external_type_specification]
#[verifier::external_body]
pub struct ExPooledConn(mysql::PooledConn);

/// Declares the driver's parsed connection-options type.
#[verifier::external_type_specification]
#[verifier::external_body]
pub struct ExOpts(mysql::Opts);

/// Declares the driver's error type; verified code only carries it to a
/// message string.
#[verifier::external_type_specification]
#[verifier::external_body]
pub struct ExError(mysql::Error);

/// Declares the driver's URL-parse error type.
#[verifier::external_type_specification]
#[verifier::external_body]
pub struct ExUrlError(mysql::UrlError);

/// Declares the driver's bound-parameters type, which only stands in trait
/// bounds here.
#[verifier::external_type_specification]
#[verifier::external_body]
pub struct ExParams(mysql::Params);

/// Relies on mysql::Pool::get_conn: checks a connection out of the pool,
/// Err on driver failure.
#[verifier::external_body]
fn pool_get_conn(pool: &mysql::Pool) -> (r: Result<mysql::PooledConn, mysql::Error>) {
    pool.get_conn()
}

/// Relies on the Display impl of mysql::Error: the driver's message text.
#[verifier::external_body]
fn mysql_error_text(e: &mysql::Error) -> (r: String) {
    e.to_string()
}

/// Relies on the Display impl of mysql::UrlError: the parse failure's text.
#[verifier::external_body]
fn url_error_text(e: &mysql::UrlError) -> (r: String) {
    e.to_string()
}

/// Relies on mysql's Queryable::exec_opt on a pooled connection, the
/// non-panicking variant: runs the statement with the bound parameters and
/// decodes every row of the first result set; a driver failure, or a row
/// that does not fit `T`, comes back as Err.
#[verifier::external_body]
fn conn_exec<T, S, P>(conn: &mut mysql::PooledConn, stmt: S, params: P) -> (r: Result<
    Vec<T>,
    mysql::Error,
>) where S: mysql::prelude::AsStatement, P: Into<mysql::Params>, T: mysql::prelude::FromRow {
    let rows = match mysql::prelude::Queryable::exec_opt(conn, stmt, params) {
        Ok(rows) => rows,
        Err(e) => return Err(e),
    };
    let mut out: Vec<T> = Vec::with_capacity(rows.len());
    for row in rows {
        match row {
            Ok(v) => out.push(v),
            Err(e) => return Err(mysql::Error::from(e)),
        }
    }
    Ok(out)
}

/// Relies on mysql's Queryable::exec_first_opt on a pooled connection, the
/// non-panicking variant: runs the statement and decodes at most the first
/// row; a driver failure, or a row that does not fit `T`, comes back as Err.
#[verifier::external_body]
fn conn_exec_first<T, S, P>(conn: &mut mysql::PooledConn, stmt: S, params: P) -> (r: Result<
    Option<T>,
    mysql::Error,
>) where S: mysql::prelude::AsStatement, P: Into<mysql::Params>, T: mysql::prelude::FromRow {
    match mysql::prelude::Queryable::exec_first_opt(conn, stmt, params) {
        Ok(Some(Ok(v))) => Ok(Some(v)),
        Ok(Some(Err(e))) => Err(mysql::Error::from(e)),
        Ok(None) => Ok(None),
        Err(e) => Err(e),
    }
}

/// Relies on mysql's Queryable::exec_drop on a pooled connection: runs the
/// statement and drops any result rows, Err on any driver failure.
#[verifier::external_body]
fn conn_exec_drop<S, P>(conn: &mut mysql::PooledConn, stmt: S, params: P) -> (r: Result<
    (),
    mysql::Error,
>) where S: mysql::prelude::AsStatement, P: Into<mysql::Params> {
    mysql::prelude::Queryable::exec_drop(conn, stmt, params)
}

/// Relies on mysql's Conn::affected_rows, reached through the connection's
/// AsRef<Conn>: the row count the server reported for the last statement.
#[verifier::external_body]
fn conn_affected_rows(conn: &mysql::PooledConn) -> (r: u64) {
    conn.as_ref().affected_rows()
}

/// Relies on mysql::Opts::from_url: parses a connection URL, Err exactly on
/// a malformed or unsupported URL.
#[verifier::external_body]
fn opts_from_url(url: &str) -> (r: Result<mysql::Opts, mysql::UrlError>) {
    mysql::Opts::from_url(url)
}

/// Relies on mysql::PoolConstraints::new (Some exactly when `min <= max` and
/// `max >= 1`, which the caller must ensure), PoolOpts::with_constraints,
/// OptsBuilder::from_opts and Pool::new: builds a pool bounded below by `min`
/// and above by `max` connections, Err on driver failure.
#[verifier::external_body]
fn pool_new_bounded(min: usize, max: usize, opts: mysql::Opts) -> (r: Result<
    mysql::Pool,
    mysql::Error,
>)
    requires
        min <= max,
        max >= 1,
{
    let constraints = mysql::PoolConstraints::new(min, max).unwrap();
    let pool_opts = mysql::PoolOpts::default().with_constraints(constraints);
    let opts = mysql::OptsBuilder::from_opts(opts).pool_opts(pool_opts);
    mysql::Pool::new(opts)
}

/// The connection URL, from the environment (empty when unset).
pub fn mysql_url() -> String {
    get_env("DATABASE_URL", "")
}

/// Checks a connection out of the pool; a driver failure surfaces as a
/// `Database` error carrying the driver's text.
pub fn mysql_pool_to_connection(pool: &mysql::Pool) -> (r: Result<mysql::PooledConn, CustomError>)
    ensures
        r matches Err(e) ==> e matches CustomError::Database(_),
{
    match pool_get_conn(pool) {
        Ok(conn) => Ok(conn),
        Err(e) => Err(CustomError::Database(mysql_error_text(&e))),
    }
}

/// Maps a driver execution result onto the shared error type: rows pass
/// through unchanged (an empty result set stays an empty row list, not an
/// error), any driver failure becomes `Database("SQL ERROR")`.
pub fn rows_or_sql_error<T>(res: Result<Vec<T>, mysql::Error>) -> (r: Result<Vec<T>, CustomError>)
    ensures
        res matches Ok(v) ==> r matches Ok(w) && w == v,
        res matches Err(_) ==> r matches Err(e) && e matches CustomError::Database(m) && m@
            == "SQL ERROR"@,
{
    match res {
        Ok(v) => Ok(v),
        Err(_) => Err(CustomError::Database("SQL ERROR".to_owned())),
    }
}

/// Maps a driver first-row result onto the shared error type: a present or
/// absent row passes through unchanged (no row is None, not an error), any
/// driver failure becomes `Database("SQL ERROR")`.
pub fn first_row_or_sql_error<T>(res: Result<Option<T>, mysql::Error>) -> (r: Result<
    Option<T>,
    CustomError,
>)
    ensures
        res matches Ok(v) ==> r matches Ok(w) && w == v,
        res matches Err(_) ==> r matches Err(e) && e matches CustomError::Database(m) && m@
            == "SQL ERROR"@,
{
    match res {
        Ok(v) => Ok(v),
        Err(_) => Err(CustomError::Database("SQL ERROR".to_owned())),
    }
}

/// Maps a driver execution result and the connection's affected-row count
/// onto the shared error type: on success the count passes through
/// unchanged, any driver failure becomes `Database("SQL ERROR")`.
pub fn update_count_or_sql_error(res: Result<(), mysql::Error>, count: u64) -> (r: Result<
    u64,
    CustomError,
>)
    ensures
        res matches Ok(_) ==> r matches Ok(n) && n == count,
        res matches Err(_) ==> r matches Err(e) && e matches CustomError::Database(m) && m@
            == "SQL ERROR"@,
{
    match res {
        Ok(_) => Ok(count),
        Err(_) => Err(CustomError::Database("SQL ERROR".to_owned())),
    }
}

/// Executes a parameterized statement and decodes zero or more rows; a
/// connection or execution failure surfaces as a `Database` error.
pub fn mysql_search<T, S, P>(pool: &mysql::Pool, stmt: S, params: P) -> (r: Result<
    Vec<T>,
    CustomError,
>) where S: mysql::prelude::AsStatement, P: Into<mysql::Params>, T: mysql::prelude::FromRow
    ensures
        r matches Err(e) ==> e matches CustomError::Database(_),
{
    let mut conn = match mysql_pool_to_connection(pool) {
        Ok(c) => c,
        Err(e) => {
            return Err(e);
        },
    };
    let res = conn_exec(&mut conn, stmt, params);
    rows_or_sql_error(res)
}

/// Executes a parameterized statement expecting at most one row; None when
/// no row matches; a connection or execution failure surfaces as a
/// `Database` error.
pub fn mysql_search_first<T, S, P>(pool: &mysql::Pool, stmt: S, params: P) -> (r: Result<
    Option<T>,
    CustomError,
>) where S: mysql::prelude::AsStatement, P: Into<mysql::Params>, T: mysql::prelude::FromRow
    ensures
        r matches Err(e) ==> e matches CustomError::Database(_),
{
    let mut conn = match mysql_pool_to_connection(pool) {
        Ok(c) => c,
        Err(e) => {
            return Err(e);
        },
    };
    let res = conn_exec_first(&mut conn, stmt, params);
    first_row_or_sql_error(res)
}

/// Executes a parameterized statement with no result rows and returns the
/// count of affected rows; a connection or execution failure surfaces as a
/// `Database` error.
pub fn mysql_update<S, P>(pool: &mysql::Pool, stmt: S, params: P) -> (r: Result<u64, CustomError>)
    where S: mysql::prelude::AsStatement, P: Into<mysql::Params>
    ensures
        r matches Err(e) ==> e matches CustomError::Database(_),
{
    let mut conn = match mysql_pool_to_connection(pool) {
        Ok(c) => c,
        Err(e) => {
            return Err(e);
        },
    };
    let res = conn_exec_drop(&mut conn, stmt, params);
    let count = conn_affected_rows(&conn);
    update_count_or_sql_error(res, count)
}

/// Builds a pool bounded by the given connection counts from the URL in the
/// environment; a parse or construction failure, or an invalid pair of
/// bounds, surfaces as a `Database` error.
pub fn get_mysql_pool_manual(min: usize, max: usize) -> (r: Result<mysql::Pool, CustomError>)
    ensures
        r matches Err(e) ==> e matches CustomError::Database(_),
        !(min <= max && max >= 1) ==> r is Err,
{
    let url = mysql_url();
    let opts = match opts_from_url(url.as_str()) {
        Ok(o) => o,
        Err(e) => {
            return Err(CustomError::Database(url_error_text(&e)));
        },
    };
    if !(min <= max && max >= 1) {
        return Err(CustomError::Database("invalid pool constraints".to_owned()));
    }
    match pool_new_bounded(min, max, opts) {
        Ok(pool) => Ok(pool),
        Err(e) => Err(CustomError::Database(mysql_error_text(&e))),
    }
}

/// Builds a pool with the default bounds of 1 to 20 connections from the URL
/// in the environment; a parse or construction failure surfaces as a
/// `Database` error.
pub fn get_mysql_pool() -> (r: Result<mysql::Pool, CustomError>)
    ensures
        r matches Err(e) ==> e matches CustomError::Database(_),
{
    get_mysql_pool_manual(1, 20)
}

} // verus!
