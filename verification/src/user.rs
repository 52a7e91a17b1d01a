use vstd::prelude::*;

verus! {

/// A user record. `id` is assigned by the store and is `None` on
/// client-submitted input.
#[derive(Debug)]
pub struct User {
    pub id: Option<i64>,
    pub name: String,
    pub password: String,
}

/// The mathematical content of a `User`.
#[verifier::ext_equal]
pub ghost struct UserView {
    pub id: Option<int>,
    pub name: Seq<char>,
    pub password: Seq<char>,
}

impl View for User {
    type V = UserView;

    open spec fn view(&self) -> UserView {
        UserView {
            id: match self.id {
                Some(i) => Some(i as int),
                None => None,
            },
            name: self.name@,
            password: self.password@,
        }
    }
}

/// Why a submitted body was rejected before any store work was done.
#[derive(Clone, Copy, Debug, PartialEq, Eq, Structural)]
pub enum ParseError {
    MissingName,
    MissingPassword,
}

impl User {
    /// Builds a user from the fields of a decoded request body. Both
    /// `name` and `password` must be present; a missing field fails the
    /// request before it reaches the store. `id` is kept as submitted
    /// (the insert path ignores it).
    pub fn from_fields(
        id: Option<i64>,
        name: Option<String>,
        password: Option<String>,
    ) -> (r: Result<User, ParseError>)
        ensures
            name is None ==> r == Err::<User, ParseError>(ParseError::MissingName),
            name is Some && password is None ==> r == Err::<User, ParseError>(
                ParseError::MissingPassword,
            ),
            name is Some && password is Some ==> (r matches Ok(u) && u.id == id && u.name
                == name->0 && u.password == password->0),
    {
        match (name, password) {
            (None, _) => Err(ParseError::MissingName),
            (Some(_), None) => Err(ParseError::MissingPassword),
            (Some(n), Some(p)) => Ok(User { id, name: n, password: p }),
        }
    }
}

} // verus!
