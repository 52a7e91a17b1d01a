use vstd::prelude::*;
use crate::seed::{seed_pairs, seed_rows};

verus! {

#[verifier::external_type_specification]
#[verifier::external_body]
pub struct ExConnection(rusqlite::Connection);

#[verifier::external_type_specification]
#[verifier::external_body]
pub struct ExDbError(rusqlite::Error);

/// The rows of the `users` table held by a connection, in primary-key
/// order, each as (id, name, password).
pub uninterp spec fn db_rows(c: rusqlite::Connection) -> Seq<(int, Seq<char>, Seq<char>)>;

/// The auto-increment counter of the `users` table: the largest id the
/// store has ever assigned, and the rowid of the most recent successful
/// insert on the connection (0 when nothing was ever inserted).
pub uninterp spec fn db_seq(c: rusqlite::Connection) -> int;

/// Which step of reading a row back failed.
pub enum SelectFailure {
    Preparation(rusqlite::Error),
    Execution(rusqlite::Error),
}

/// Relies on rusqlite's `Connection::open_in_memory` and `execute`: a
/// fresh in-memory database holds no rows, and `CREATE TABLE` with an
/// `INTEGER PRIMARY KEY AUTOINCREMENT` column starts the counter at 0,
/// so the first inserted row gets id 1.
#[verifier::external_body]
pub(crate) fn open_users_store() -> (r: Result<rusqlite::Connection, rusqlite::Error>)
    ensures
        r matches Ok(c) ==> db_rows(c) == Seq::<(int, Seq<char>, Seq<char>)>::empty() && db_seq(c)
            == 0,
{
    let conn = rusqlite::Connection::open_in_memory()?;
    conn.execute(
        "CREATE TABLE users (id INTEGER PRIMARY KEY AUTOINCREMENT, name TEXT, password TEXT)",
        (),
    )?;
    Ok(conn)
}

/// Relies on rusqlite's `Connection::execute` running an `INSERT`: on
/// success SQLite appends one row whose auto-assigned id is one past the
/// table's counter (an `AUTOINCREMENT` id is larger than every id ever
/// used, so the new row comes last in primary-key order); on failure the
/// table is unchanged.
#[verifier::external_body]
pub(crate) fn insert_user_row(c: &mut rusqlite::Connection, name: &str, password: &str) -> (r: Result<
    (),
    rusqlite::Error,
>)
    ensures
        r is Ok ==> db_rows(*final(c)) == db_rows(*old(c)).push(
            (db_seq(*old(c)) + 1, name@, password@),
        ) && db_seq(*final(c)) == db_seq(*old(c)) + 1,
        r is Err ==> db_rows(*final(c)) == db_rows(*old(c)) && db_seq(*final(c)) == db_seq(
            *old(c),
        ),
{
    match c.execute("INSERT INTO users (name, password) VALUES (?1, ?2)", (name, password)) {
        Ok(_) => Ok(()),
        Err(e) => Err(e),
    }
}

/// Relies on rusqlite's `Connection::last_insert_rowid`: it returns the
/// rowid of the most recent successful insert on this connection, and 0
/// when there was none.
#[verifier::external_body]
pub(crate) fn last_row_id(c: &rusqlite::Connection) -> (r: i64)
    ensures
        r as int == db_seq(*c),
{
    c.last_insert_rowid()
}

/// Relies on rusqlite's `prepare` and `query_map`: `SELECT ... ORDER BY
/// id` yields every row of the table in primary-key order.
#[verifier::external_body]
pub(crate) fn select_all_rows(c: &rusqlite::Connection) -> (r: Result<
    Vec<(i64, String, String)>,
    rusqlite::Error,
>)
    ensures
        r matches Ok(v) ==> v@.len() == db_rows(*c).len() && forall|i: int|
            0 <= i < v@.len() ==> ((#[trigger] v@[i]).0 as int, v@[i].1@, v@[i].2@) == db_rows(
                *c,
            )[i],
{
    let mut stmt = c.prepare("SELECT id, name, password FROM users ORDER BY id")?;
    let rows = stmt.query_map((), |row| Ok((row.get(0)?, row.get(1)?, row.get(2)?)))?;
    rows.collect()
}

/// Relies on rusqlite's `prepare` and `query_row`: on success the row
/// returned is a row of the table with the requested id; when no row has
/// that id, `query_row` fails with `QueryReturnedNoRows`.
#[verifier::external_body]
pub(crate) fn select_row_by_id(c: &rusqlite::Connection, id: i64) -> (r: Result<
    (i64, String, String),
    SelectFailure,
>)
    ensures
        r matches Ok(t) ==> t.0 == id && db_rows(*c).contains((id as int, t.1@, t.2@)),
        (forall|i: int| 0 <= i < db_rows(*c).len() ==> (#[trigger] db_rows(*c)[i]).0 != id as int)
            ==> r is Err,
{
    let mut stmt = match c.prepare("SELECT id, name, password FROM users WHERE id = ?1") {
        Ok(s) => s,
        Err(e) => return Err(SelectFailure::Preparation(e)),
    };
    match stmt.query_row((id,), |row| Ok((row.get(0)?, row.get(1)?, row.get(2)?))) {
        Ok(t) => Ok(t),
        Err(e) => Err(SelectFailure::Execution(e)),
    }
}

/// Relies on rusqlite's `Connection::execute`: a statement that returns
/// at least one row fails with `ExecuteReturnedResults`, so `execute` on
/// this `SELECT` can return `Ok` only when no row matches the given name
/// and password.
#[verifier::external_body]
pub(crate) fn probe_credentials(c: &rusqlite::Connection, name: &str, password: &str) -> (r: bool)
    ensures
        r ==> forall|i: int|
            0 <= i < db_rows(*c).len() ==> !((#[trigger] db_rows(*c)[i]).1 == name@ && db_rows(
                *c,
            )[i].2 == password@),
{
    c.execute("SELECT * FROM users WHERE name = ? AND PASSWORD = ?", [name, password]).is_ok()
}

/// Relies on the `Debug` rendering of rusqlite's `Error` for a
/// human-readable description; nothing is claimed of the text.
#[verifier::external_body]
pub(crate) fn error_detail(e: &rusqlite::Error) -> String {
    format!("{:?}", e)
}

/// Opens a fresh in-memory store, creates the `users` table and seeds it
/// with the ten fixed rows, which get ids 1 through 10 in seed order.
pub fn setup_db() -> (r: Result<rusqlite::Connection, rusqlite::Error>)
    ensures
        r matches Ok(c) ==> db_rows(c) == seed_rows() && db_seq(c) == 10,
{
    let mut conn = match open_users_store() {
        Ok(c) => c,
        Err(e) => return Err(e),
    };
    let pairs = seed_pairs();
    let mut i: usize = 0;
    while i < 10
        invariant
            pairs@.len() == 10,
            forall|j: int|
                0 <= j < 10 ==> (#[trigger] pairs@[j]).0@ == crate::seed::seed_name(j)
                    && pairs@[j].1@ == crate::seed::seed_password(j),
            0 <= i <= 10,
            db_seq(conn) == i as int,
            db_rows(conn) == seed_rows().take(i as int),
        decreases 10 - i,
    {
        match insert_user_row(&mut conn, pairs[i].0, pairs[i].1) {
            Ok(()) => {},
            Err(e) => return Err(e),
        }
        proof {
            assert(seed_rows().take(i as int + 1) =~= seed_rows().take(i as int).push(
                seed_rows()[i as int],
            ));
        }
        i += 1;
    }
    proof {
        assert(seed_rows().take(10) =~= seed_rows());
    }
    Ok(conn)
}

} // verus!
