//! The calls into SQLite and into the identifier generator.
use vstd::prelude::*;

verus! {

/// rusqlite's handle on an open database, carried through opaque.
#[verifier::external_type_specification]
#[verifier::external_body]
pub struct ExSqlConnection(rusqlite::Connection);

/// rusqlite's error, carried through opaque.
#[verifier::external_type_specification]
#[verifier::external_body]
pub struct ExSqlError(rusqlite::Error);

/// Relies on rusqlite::Connection::open: opens, or creates, the database file
/// at `path`; ":memory:" gives a private database in memory.
#[verifier::external_body]
pub(crate) fn open_socket(path: &str) -> (r: Result<rusqlite::Connection, rusqlite::Error>) {
    rusqlite::Connection::open(path)
}

/// Relies on rusqlite::Connection::execute with rusqlite::params_from_iter:
/// runs one statement, `params` bound to its placeholders in order, `None` as NULL.
#[verifier::external_body]
pub(crate) fn execute(socket: &rusqlite::Connection, sql: &str, params: &Vec<Option<String>>) -> (r: Result<
    usize,
    rusqlite::Error,
>) {
    socket.execute(sql, rusqlite::params_from_iter(params.iter()))
}

/// Relies on rusqlite's Connection::prepare, Statement::query_map and Row::get:
/// the rows of a query, `params` bound as for `execute`, each row read as
/// `width` cells of text or NULL.
#[verifier::external_body]
pub(crate) fn query_rows(
    socket: &rusqlite::Connection,
    sql: &str,
    params: &Vec<Option<String>>,
    width: usize,
) -> (r: Result<Vec<Vec<Option<String>>>, rusqlite::Error>)
    ensures
        r matches Ok(rows) ==> forall|i: int| 0 <= i < rows@.len() ==> (#[trigger] rows@[i])@.len() == width,
{
    let mut stmt = socket.prepare(sql)?;
    let rows = stmt.query_map(rusqlite::params_from_iter(params.iter()), |row| {
        (0..width).map(|i| row.get::<usize, Option<String>>(i)).collect()
    })?;
    rows.collect()
}

/// Relies on the Display impl of rusqlite::Error, for the cause of a failure.
#[verifier::external_body]
pub(crate) fn error_text(e: &rusqlite::Error) -> (r: String) {
    e.to_string()
}

/// Relies on uuid's Uuid::new_v4 and the Display impl of its Simple format:
/// a random identifier written as 32 lowercase hexadecimal digits. It panics
/// only where the operating system gives no random bytes at all.
#[verifier::external_body]
pub(crate) fn fresh_key() -> (r: String)
    ensures
        r@.len() == 32,
        forall|i: int| 0 <= i < 32 ==> ('0' <= #[trigger] r@[i] <= '9' || 'a' <= r@[i] <= 'f'),
{
    uuid::Uuid::new_v4().simple().to_string()
}

} // verus!
