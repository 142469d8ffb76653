//! The SQL adapters' decision logic: the fixed statement set of each engine,
//! the dialect-specific parameter bind orders, and the normalization of
//! driver outcomes into the error taxonomy. Executing a statement is I/O and
//! stays outside this layer; everything an adapter decides is here.

use crate::error::Error;
use crate::user::User;
use vstd::prelude::*;

verus! {

/// One supported SQL dialect.
#[derive(Debug, Clone, Copy, PartialEq, Eq)]
pub enum Dialect {
    /// Positional `?` placeholders.
    MySql,
    /// Numbered `$n` placeholders.
    Postgres,
}

/// One value bound to a statement placeholder.
#[derive(Debug, Clone, PartialEq, Eq)]
pub enum Param {
    /// The 128-bit identifier.
    Id(u128),
    /// An email or credential-hash string.
    Text(String),
    /// The privilege flag.
    Flag(bool),
}

/// The create-table statement: idempotent first-run schema creation.
pub fn create_table_stmt(d: Dialect) -> (r: &'static str)
    ensures
        d == Dialect::MySql ==> r@
            == "CREATE TABLE IF NOT EXISTS users (id BINARY(16) PRIMARY KEY, email VARCHAR(254) UNIQUE NOT NULL, password TEXT NOT NULL, is_admin BOOL NOT NULL);"@,
        d == Dialect::Postgres ==> r@
            == "CREATE TABLE IF NOT EXISTS users (id UUID PRIMARY KEY, email VARCHAR(254) UNIQUE NOT NULL, password TEXT NOT NULL, is_admin BOOL NOT NULL);"@,
{
    match d {
        Dialect::MySql => "CREATE TABLE IF NOT EXISTS users (id BINARY(16) PRIMARY KEY, email VARCHAR(254) UNIQUE NOT NULL, password TEXT NOT NULL, is_admin BOOL NOT NULL);",
        Dialect::Postgres => "CREATE TABLE IF NOT EXISTS users (id UUID PRIMARY KEY, email VARCHAR(254) UNIQUE NOT NULL, password TEXT NOT NULL, is_admin BOOL NOT NULL);",
    }
}

/// The insert statement.
pub fn insert_stmt(d: Dialect) -> (r: &'static str)
    ensures
        d == Dialect::MySql ==> r@
            == "INSERT INTO users (id, email, password, is_admin) VALUES (?, ?, ?, ?);"@,
        d == Dialect::Postgres ==> r@
            == "INSERT INTO users (id, email, password, is_admin) VALUES ($1, $2, $3, $4);"@,
{
    match d {
        Dialect::MySql => "INSERT INTO users (id, email, password, is_admin) VALUES (?, ?, ?, ?);",
        Dialect::Postgres => "INSERT INTO users (id, email, password, is_admin) VALUES ($1, $2, $3, $4);",
    }
}

/// The update statement. The numbered dialect names the id first, so its
/// bind order differs from the positional dialect's.
pub fn update_stmt(d: Dialect) -> (r: &'static str)
    ensures
        d == Dialect::MySql ==> r@
            == "UPDATE users SET email = ?, password = ?, is_admin = ? WHERE id = ?;"@,
        d == Dialect::Postgres ==> r@
            == "UPDATE users SET email = $2, password = $3, is_admin = $4 WHERE id = $1;"@,
{
    match d {
        Dialect::MySql => "UPDATE users SET email = ?, password = ?, is_admin = ? WHERE id = ?;",
        Dialect::Postgres => "UPDATE users SET email = $2, password = $3, is_admin = $4 WHERE id = $1;",
    }
}

/// The delete-by-id statement.
pub fn delete_by_id_stmt(d: Dialect) -> (r: &'static str)
    ensures
        d == Dialect::MySql ==> r@ == "DELETE FROM users WHERE id = ?;"@,
        d == Dialect::Postgres ==> r@ == "DELETE FROM users WHERE id = $1;"@,
{
    match d {
        Dialect::MySql => "DELETE FROM users WHERE id = ?;",
        Dialect::Postgres => "DELETE FROM users WHERE id = $1;",
    }
}

/// The delete-by-email statement.
pub fn delete_by_email_stmt(d: Dialect) -> (r: &'static str)
    ensures
        d == Dialect::MySql ==> r@ == "DELETE FROM users WHERE email = ?;"@,
        d == Dialect::Postgres ==> r@ == "DELETE FROM users WHERE email = $1;"@,
{
    match d {
        Dialect::MySql => "DELETE FROM users WHERE email = ?;",
        Dialect::Postgres => "DELETE FROM users WHERE email = $1;",
    }
}

/// The select-by-id statement.
pub fn select_by_id_stmt(d: Dialect) -> (r: &'static str)
    ensures
        d == Dialect::MySql ==> r@
            == "SELECT id, email, password, is_admin FROM users WHERE id = ?;"@,
        d == Dialect::Postgres ==> r@
            == "SELECT id, email, password, is_admin FROM users WHERE id = $1;"@,
{
    match d {
        Dialect::MySql => "SELECT id, email, password, is_admin FROM users WHERE id = ?;",
        Dialect::Postgres => "SELECT id, email, password, is_admin FROM users WHERE id = $1;",
    }
}

/// The select-by-email statement.
pub fn select_by_email_stmt(d: Dialect) -> (r: &'static str)
    ensures
        d == Dialect::MySql ==> r@
            == "SELECT id, email, password, is_admin FROM users WHERE email = ?;"@,
        d == Dialect::Postgres ==> r@
            == "SELECT id, email, password, is_admin FROM users WHERE email = $1;"@,
{
    match d {
        Dialect::MySql => "SELECT id, email, password, is_admin FROM users WHERE email = ?;",
        Dialect::Postgres => "SELECT id, email, password, is_admin FROM users WHERE email = $1;",
    }
}

/// The parameters of the insert statement, in bind order: both dialects
/// bind id, email, credential hash, and the privilege flag in that order.
pub fn insert_params(d: Dialect, id: u128, email: &str, hash: &str, is_admin: bool) -> (r: Vec<
    Param,
>)
    ensures
        r@.len() == 4,
        r@[0] == Param::Id(id),
        r@[1] matches Param::Text(s) && s@ == email@,
        r@[2] matches Param::Text(s) && s@ == hash@,
        r@[3] == Param::Flag(is_admin),
{
    let mut v: Vec<Param> = Vec::new();
    v.push(Param::Id(id));
    v.push(Param::Text(email.to_owned()));
    v.push(Param::Text(hash.to_owned()));
    v.push(Param::Flag(is_admin));
    v
}

/// The parameters of the update statement, in the order each dialect's
/// driver requires: the positional dialect binds the new field values first
/// and the id last, the numbered dialect binds the id first.
pub fn update_params(d: Dialect, u: &User) -> (r: Vec<Param>)
    ensures
        r@.len() == 4,
        d == Dialect::MySql ==> (r@[0] matches Param::Text(s) && s@ == u.email@) && (r@[1] matches
            Param::Text(s) && s@ == u.password@) && r@[2] == Param::Flag(u.is_admin) && r@[3]
            == Param::Id(u.id),
        d == Dialect::Postgres ==> r@[0] == Param::Id(u.id) && (r@[1] matches Param::Text(s) && s@
            == u.email@) && (r@[2] matches Param::Text(s) && s@ == u.password@) && r@[3]
            == Param::Flag(u.is_admin),
{
    let mut v: Vec<Param> = Vec::new();
    match d {
        Dialect::MySql => {
            v.push(Param::Text(u.email.clone()));
            v.push(Param::Text(u.password.clone()));
            v.push(Param::Flag(u.is_admin));
            v.push(Param::Id(u.id));
        },
        Dialect::Postgres => {
            v.push(Param::Id(u.id));
            v.push(Param::Text(u.email.clone()));
            v.push(Param::Text(u.password.clone()));
            v.push(Param::Flag(u.is_admin));
        },
    }
    v
}

/// The outcome a driver reports for a statement that modifies rows.
pub enum ExecOutcome {
    /// The statement ran; carries the number of rows affected.
    Done(u64),
    /// The engine rejected the row for violating the unique constraint on
    /// emails; carries the driver's message.
    UniqueViolation(String),
    /// Any other driver fault; carries its message.
    Fault(String),
}

/// The outcome a driver reports for a select of at most one row.
pub enum FetchOutcome {
    /// The matching row, already decoded.
    Row(User),
    /// No row matched.
    NoRows,
    /// Any driver fault; carries its message.
    Fault(String),
}

/// How a create normalizes its driver outcome: a unique-constraint
/// violation on the email is the conflict error, any other fault is a
/// storage-backend error, and success is success.
pub open spec fn create_outcome_result(o: ExecOutcome) -> Result<(), Error> {
    match o {
        ExecOutcome::Done(_) => Ok(()),
        ExecOutcome::UniqueViolation(_) => Err(Error::EmailAlreadyExists),
        ExecOutcome::Fault(m) => Err(Error::SqlxError(m)),
    }
}

/// Normalize the driver outcome of the insert statement.
pub fn map_create_outcome(o: ExecOutcome) -> (r: Result<(), Error>)
    ensures
        r == create_outcome_result(o),
{
    match o {
        ExecOutcome::Done(_) => Ok(()),
        ExecOutcome::UniqueViolation(_) => Err(Error::EmailAlreadyExists),
        ExecOutcome::Fault(m) => Err(Error::SqlxError(m)),
    }
}

/// How an update normalizes its driver outcome: zero rows affected means no
/// record carries the id, so the adapter reports not-found rather than a
/// silent no-op; a unique-constraint violation on the new email is the
/// conflict error.
pub open spec fn update_outcome_result(o: ExecOutcome) -> Result<(), Error> {
    match o {
        ExecOutcome::Done(rows) => if rows == 0 {
            Err(Error::UserNotFoundError)
        } else {
            Ok(())
        },
        ExecOutcome::UniqueViolation(_) => Err(Error::EmailAlreadyExists),
        ExecOutcome::Fault(m) => Err(Error::SqlxError(m)),
    }
}

/// Normalize the driver outcome of the update statement.
pub fn map_update_outcome(o: ExecOutcome) -> (r: Result<(), Error>)
    ensures
        r == update_outcome_result(o),
{
    match o {
        ExecOutcome::Done(rows) => if rows == 0 {
            Err(Error::UserNotFoundError)
        } else {
            Ok(())
        },
        ExecOutcome::UniqueViolation(_) => Err(Error::EmailAlreadyExists),
        ExecOutcome::Fault(m) => Err(Error::SqlxError(m)),
    }
}

/// How a delete normalizes its driver outcome: a missing row is a
/// successful no-op, so only driver faults propagate.
pub open spec fn delete_outcome_result(o: ExecOutcome) -> Result<(), Error> {
    match o {
        ExecOutcome::Done(_) => Ok(()),
        ExecOutcome::UniqueViolation(m) => Err(Error::SqlxError(m)),
        ExecOutcome::Fault(m) => Err(Error::SqlxError(m)),
    }
}

/// Normalize the driver outcome of either delete statement.
pub fn map_delete_outcome(o: ExecOutcome) -> (r: Result<(), Error>)
    ensures
        r == delete_outcome_result(o),
{
    match o {
        ExecOutcome::Done(_) => Ok(()),
        ExecOutcome::UniqueViolation(m) => Err(Error::SqlxError(m)),
        ExecOutcome::Fault(m) => Err(Error::SqlxError(m)),
    }
}

/// How a select normalizes its driver outcome: zero rows returned is the
/// not-found error, a row is the decoded record.
pub open spec fn fetch_outcome_result(o: FetchOutcome) -> Result<User, Error> {
    match o {
        FetchOutcome::Row(u) => Ok(u),
        FetchOutcome::NoRows => Err(Error::UserNotFoundError),
        FetchOutcome::Fault(m) => Err(Error::SqlxError(m)),
    }
}

/// Normalize the driver outcome of either select statement.
pub fn map_fetch_outcome(o: FetchOutcome) -> (r: Result<User, Error>)
    ensures
        r == fetch_outcome_result(o),
{
    match o {
        FetchOutcome::Row(u) => Ok(u),
        FetchOutcome::NoRows => Err(Error::UserNotFoundError),
        FetchOutcome::Fault(m) => Err(Error::SqlxError(m)),
    }
}

} // verus!
