use vstd::prelude::*;
use crate::seed::seed_user_view;
use crate::service::{created_ok, list_ok};
use crate::user::UserView;

verus! {

/// Listing is idempotent: any two correct listings are the same ten
/// users, so independent requests never drift.
pub proof fn lemma_list_users_idempotent(a: Seq<UserView>, b: Seq<UserView>)
    requires
        list_ok(a),
        list_ok(b),
    ensures
        a == b,
{
    assert forall|i: int| 0 <= i < a.len() implies a[i] == b[i] by {
        assert(a[i] == seed_user_view(i));
        assert(b[i] == seed_user_view(i));
    }
    assert(a =~= b);
}

/// A correct listing never contains a store-assigned creation id: the
/// fresh store behind every listing holds only the seed rows, so a user
/// created by an earlier request is not visible in a later listing.
pub proof fn lemma_created_user_not_listed(input: UserView, u: UserView, us: Seq<UserView>)
    requires
        created_ok(input, u),
        list_ok(us),
    ensures
        forall|i: int| 0 <= i < us.len() ==> (#[trigger] us[i]).id != u.id,
{
    assert forall|i: int| 0 <= i < us.len() implies (#[trigger] us[i]).id != u.id by {
        assert(us[i] == seed_user_view(i));
    }
}

/// Creation ignores the submitted id: two submissions that agree on name
/// and password get the same response, whatever ids they carried.
pub proof fn lemma_create_ignores_id(a: UserView, b: UserView, u: UserView, v: UserView)
    requires
        a.name == b.name,
        a.password == b.password,
        created_ok(a, u),
        created_ok(b, v),
    ensures
        u == v,
{
    assert(u =~= v);
}

/// There is no shared id sequence: every correct creation — concurrent
/// ones included, since each request owns a fresh store — receives id
/// 11.
pub proof fn lemma_creations_independent(a: UserView, b: UserView, u: UserView, v: UserView)
    requires
        created_ok(a, u),
        created_ok(b, v),
    ensures
        u.id == Some(11int),
        v.id == Some(11int),
{
}

} // verus!
