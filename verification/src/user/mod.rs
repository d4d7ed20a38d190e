use vstd::prelude::*;

pub mod add_user;
pub mod auth_user;
pub mod auth_user_jwt;
pub mod check_user_access;
pub mod clock;
pub mod create_jwt;
pub mod get_user;
pub mod jwt;
pub mod password;

verus! {

use crate::user::add_user::{User, UserView};

/// The view of an optional user.
pub open spec fn opt_user_view(u: Option<User>) -> Option<UserView> {
    match u {
        Some(u) => Some(u@),
        None => None,
    }
}

/// A lookup by email (`find_one({"email": email})`) in the users collection,
/// a sequence of users in insertion order: the first user with that email.
pub open spec fn find_user(s: Seq<UserView>, email: Seq<char>) -> Option<UserView>
    decreases s.len(),
{
    if s.len() == 0 {
        None
    } else if s[0].email == email {
        Some(s[0])
    } else {
        find_user(s.drop_first(), email)
    }
}

/// Appending a user changes a lookup only when no earlier user matched.
pub proof fn lemma_find_user_push(s: Seq<UserView>, u: UserView, email: Seq<char>)
    ensures
        find_user(s.push(u), email) == (match find_user(s, email) {
            Some(found) => Some(found),
            None => if u.email == email { Some(u) } else { None },
        }),
    decreases s.len(),
{
    if s.len() > 0 {
        assert(s.push(u)[0] == s[0]);
        assert(s.push(u).drop_first() =~= s.drop_first().push(u));
        lemma_find_user_push(s.drop_first(), u, email);
    } else {
        assert(s.push(u)[0] == u);
        assert(s.push(u).drop_first() =~= Seq::<UserView>::empty());
        assert(find_user(Seq::<UserView>::empty(), email) is None);
    }
}

/// No two users share an email.
pub open spec fn emails_unique(s: Seq<UserView>) -> bool {
    forall|i: int, j: int| 0 <= i < j < s.len() ==> s[i].email != s[j].email
}

/// `insert_one` into the users collection, which carries a unique index on
/// email: refused (`None`) when a user with that email is stored, else the
/// user is appended.
pub open spec fn insert_user(s: Seq<UserView>, u: UserView) -> Option<Seq<UserView>> {
    if find_user(s, u.email) is Some {
        None
    } else {
        Some(s.push(u))
    }
}

/// A lookup by email finds nothing exactly when no user has that email.
pub proof fn lemma_find_user_none(s: Seq<UserView>, email: Seq<char>)
    ensures
        find_user(s, email) is None <==> forall|i: int| 0 <= i < s.len() ==> s[i].email != email,
    decreases s.len(),
{
    if s.len() > 0 {
        lemma_find_user_none(s.drop_first(), email);
        if s[0].email != email {
            assert forall|i: int| 0 <= i < s.len() && (forall|j: int| 0 <= j < s.drop_first().len() ==> s.drop_first()[j].email != email) implies s[i].email != email by {
                if i > 0 {
                    assert(s[i] == s.drop_first()[i - 1]);
                }
            }
        }
    }
}

} // verus!
