use vstd::prelude::*;
use vstd::string::StringExecFns;
use crate::db::{
    db_rows, setup_db, select_all_rows, select_row_by_id, insert_user_row, last_row_id,
    probe_credentials, error_detail, SelectFailure,
};
use crate::seed::{seed_name, seed_password, seed_rows, seed_user_view};
use crate::user::{User, UserView};

verus! {

/// Why a create request failed, tagged by the stage that failed, with
/// the store's own description of the fault.
#[derive(Debug, PartialEq, Eq)]
pub enum ApiError {
    Database(String),
    Insert(String),
    QueryPreparation(String),
    QueryExecution(String),
}

impl ApiError {
    /// The message prefix each failure stage is reported under.
    pub fn kind_prefix(&self) -> (r: &'static str)
        ensures
            self is Database ==> r@ == "Database error: "@,
            self is Insert ==> r@ == "Insert error: "@,
            self is QueryPreparation ==> r@ == "Query preparation error: "@,
            self is QueryExecution ==> r@ == "Query execution error: "@,
    {
        match self {
            ApiError::Database(_) => "Database error: ",
            ApiError::Insert(_) => "Insert error: ",
            ApiError::QueryPreparation(_) => "Query preparation error: ",
            ApiError::QueryExecution(_) => "Query execution error: ",
        }
    }

    /// The underlying description carried by the error.
    pub fn detail(&self) -> (r: &String)
        ensures
            self is Database ==> r == self->Database_0,
            self is Insert ==> r == self->Insert_0,
            self is QueryPreparation ==> r == self->QueryPreparation_0,
            self is QueryExecution ==> r == self->QueryExecution_0,
    {
        match self {
            ApiError::Database(s) => s,
            ApiError::Insert(s) => s,
            ApiError::QueryPreparation(s) => s,
            ApiError::QueryExecution(s) => s,
        }
    }
}

/// A listing is correct when it is exactly the ten seed users, ids 1
/// through 10 in that order.
pub open spec fn list_ok(us: Seq<UserView>) -> bool {
    us.len() == 10 && forall|i: int| 0 <= i < 10 ==> us[i] == seed_user_view(i)
}

/// A created user is correct for the submitted record when it carries
/// the store-assigned id 11 — the ten seed rows always precede the
/// insert — and echoes the submitted name and password unchanged,
/// whatever id the client supplied.
pub open spec fn created_ok(input: UserView, u: UserView) -> bool {
    u.id == Some(11int) && u.name == input.name && u.password == input.password
}

/// Turns the rows read back from the store into user records, in order,
/// each id now present.
pub fn rows_to_users(rows: Vec<(i64, String, String)>) -> (r: Vec<User>)
    ensures
        r@.len() == rows@.len(),
        forall|i: int|
            0 <= i < rows@.len() ==> (#[trigger] r@[i])@ == (UserView {
                id: Some(rows@[i].0 as int),
                name: rows@[i].1@,
                password: rows@[i].2@,
            }),
{
    let mut out: Vec<User> = Vec::new();
    let mut i: usize = 0;
    while i < rows.len()
        invariant
            0 <= i <= rows@.len(),
            out@.len() == i,
            forall|j: int|
                0 <= j < i ==> (#[trigger] out@[j])@ == (UserView {
                    id: Some(rows@[j].0 as int),
                    name: rows@[j].1@,
                    password: rows@[j].2@,
                }),
        decreases rows@.len() - i,
    {
        let id = rows[i].0;
        let name = rows[i].1.clone();
        let password = rows[i].2.clone();
        out.push(User { id: Some(id), name, password });
        i += 1;
    }
    out
}

/// Lists the users: sets up a fresh seeded store and reads every row
/// back in primary-key order. On success the result is exactly the ten
/// seed users.
pub fn get_users() -> (r: Result<Vec<User>, ApiError>)
    ensures
        r matches Ok(us) ==> list_ok(us@.map_values(|u: User| u@)),
        r matches Err(e) ==> e is Database || e is QueryExecution,
{
    let conn = match setup_db() {
        Ok(c) => c,
        Err(e) => return Err(ApiError::Database(error_detail(&e))),
    };
    let rows = match select_all_rows(&conn) {
        Ok(v) => v,
        Err(e) => return Err(ApiError::QueryExecution(error_detail(&e))),
    };
    let users = rows_to_users(rows);
    proof {
        let views = users@.map_values(|u: User| u@);
        assert forall|i: int| 0 <= i < 10 implies views[i] == seed_user_view(i) by {
            assert(db_rows(conn)[i] == (i + 1, seed_name(i),
            seed_password(i)));
        }
    }
    Ok(users)
}

/// Creates a user: sets up a fresh seeded store, inserts the submitted
/// name and password — ignoring any submitted id — and reads the new row
/// back. On success the returned record carries id 11 and echoes the
/// submitted name and password; each failure is tagged with the stage
/// that failed.
pub fn create_user(user: &User) -> (r: Result<User, ApiError>)
    ensures
        r matches Ok(u) ==> created_ok(user@, u@),
{
    let mut conn = match setup_db() {
        Ok(c) => c,
        Err(e) => return Err(ApiError::Database(error_detail(&e))),
    };
    match insert_user_row(&mut conn, user.name.as_str(), user.password.as_str()) {
        Ok(()) => {},
        Err(e) => return Err(ApiError::Insert(error_detail(&e))),
    }
    let last_id = last_row_id(&conn);
    let row = match select_row_by_id(&conn, last_id) {
        Ok(t) => t,
        Err(SelectFailure::Preparation(e)) => return Err(
            ApiError::QueryPreparation(error_detail(&e)),
        ),
        Err(SelectFailure::Execution(e)) => return Err(ApiError::QueryExecution(error_detail(&e))),
    };
    proof {
        let rows = db_rows(conn);
        assert(rows.len() == 11);
        let j = choose|j: int|
            0 <= j < rows.len() && rows[j] == ((last_id as int, row.1@, row.2@));
        if j < 10 {
            assert(rows[j] == seed_rows()[j]);
            assert(seed_rows()[j].0 == j + 1);
        }
        assert(row.1@ == user.name@ && row.2@ == user.password@);
    }
    Ok(User { id: Some(row.0), name: row.1, password: row.2 })
}

/// A credential check that no route invokes: it runs a lookup by name
/// and password against the given store and reports only whether that
/// lookup executed without error — not whether a matching row was
/// found. Since the underlying call fails precisely when the lookup
/// returns rows, a `true` here means no row matched: the check never
/// confirms credentials. It is a non-functional placeholder and should
/// not be wired into routing as it stands.
pub fn is_authenticated(conn: rusqlite::Connection, user: &User) -> (r: bool)
    ensures
        r ==> forall|i: int|
            0 <= i < db_rows(conn).len() ==> !((#[trigger] db_rows(conn)[i]).1 == user@.name
                && db_rows(conn)[i].2 == user@.password),
{
    probe_credentials(&conn, user.name.as_str(), user.password.as_str())
}

/// An HTTP method the service routes on.
#[derive(Clone, Copy, Debug, PartialEq, Eq, Structural)]
pub enum Method {
    Get,
    Post,
}

/// The two operations the service exposes.
#[derive(Clone, Copy, Debug, PartialEq, Eq, Structural)]
pub enum Endpoint {
    ListUsers,
    CreateUser,
}

/// A mounted route: a method and the path it answers on.
pub struct Route {
    pub method: Method,
    pub path: String,
}

/// Where a request goes: both operations answer on `/user`, listing on
/// GET and creation on POST; everything else is unrouted.
pub open spec fn spec_route(m: Method, p: Seq<char>) -> Option<Endpoint> {
    if p == "/user"@ {
        match m {
            Method::Get => Some(Endpoint::ListUsers),
            Method::Post => Some(Endpoint::CreateUser),
        }
    } else {
        None
    }
}

/// Routes a request to the operation that answers it, if any.
pub fn route(method: Method, path: &str) -> (r: Option<Endpoint>)
    ensures
        r == spec_route(method, path@),
{
    let p = path.to_owned();
    let target: String = String::from_str("/user");
    if p == target {
        match method {
            Method::Get => Some(Endpoint::ListUsers),
            Method::Post => Some(Endpoint::CreateUser),
        }
    } else {
        None
    }
}

/// The service's route table: the two endpoints, both mounted on
/// `/user`.
pub fn rocket() -> (r: Vec<Route>)
    ensures
        r@.len() == 2,
        r@[0].method == Method::Get && r@[0].path@ == "/user"@,
        r@[1].method == Method::Post && r@[1].path@ == "/user"@,
        forall|i: int|
            0 <= i < 2 ==> spec_route(#[trigger] r@[i].method, r@[i].path@) is Some,
{
    let mut v: Vec<Route> = Vec::new();
    v.push(Route { method: Method::Get, path: String::from_str("/user") });
    v.push(Route { method: Method::Post, path: String::from_str("/user") });
    v
}

} // verus!
