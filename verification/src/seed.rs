use vstd::prelude::*;
use crate::user::UserView;

verus! {

/// Name of the `i`-th seed row (rows are numbered from 0).
pub open spec fn seed_name(i: int) -> Seq<char> {
    if i == 0 {
        "Alice"@
    } else if i == 1 {
        "Bob"@
    } else if i == 2 {
        "Charlie"@
    } else if i == 3 {
        "David"@
    } else if i == 4 {
        "Eve"@
    } else if i == 5 {
        "Frank"@
    } else if i == 6 {
        "Grace"@
    } else if i == 7 {
        "Hank"@
    } else if i == 8 {
        "Ivy"@
    } else {
        "Jack"@
    }
}

/// Password of the `i`-th seed row.
pub open spec fn seed_password(i: int) -> Seq<char> {
    if i == 0 {
        "password123"@
    } else if i == 1 {
        "password456"@
    } else if i == 2 {
        "password789"@
    } else if i == 3 {
        "password101"@
    } else if i == 4 {
        "password102"@
    } else if i == 5 {
        "password103"@
    } else if i == 6 {
        "password104"@
    } else if i == 7 {
        "password105"@
    } else if i == 8 {
        "password106"@
    } else {
        "password107"@
    }
}

/// The ten rows every fresh store is seeded with, as (id, name, password),
/// in primary-key order: ids are 1 through 10.
pub open spec fn seed_rows() -> Seq<(int, Seq<char>, Seq<char>)> {
    Seq::new(10, |i: int| (i + 1, seed_name(i), seed_password(i)))
}

/// The `i`-th seed row as a user record.
pub open spec fn seed_user_view(i: int) -> UserView {
    UserView { id: Some(i + 1), name: seed_name(i), password: seed_password(i) }
}

/// The fixed (name, password) pairs inserted into every fresh store, in
/// the order that gives them ids 1 through 10.
pub fn seed_pairs() -> (r: Vec<(&'static str, &'static str)>)
    ensures
        r@.len() == 10,
        forall|i: int|
            0 <= i < 10 ==> (#[trigger] r@[i]).0@ == seed_name(i) && r@[i].1@ == seed_password(i),
{
    let mut v: Vec<(&'static str, &'static str)> = Vec::new();
    v.push(("Alice", "password123"));
    v.push(("Bob", "password456"));
    v.push(("Charlie", "password789"));
    v.push(("David", "password101"));
    v.push(("Eve", "password102"));
    v.push(("Frank", "password103"));
    v.push(("Grace", "password104"));
    v.push(("Hank", "password105"));
    v.push(("Ivy", "password106"));
    v.push(("Jack", "password107"));
    v
}

} // verus!
