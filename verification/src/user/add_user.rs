//! Creating a user account.
use crate::error::ApiError;
use crate::user::password::{bcrypt_verify, hash_password, PASSWORD_HASH_COST};
use vstd::prelude::*;

verus! {

/// A stored user; `password` holds the bcrypt hash of the password.
#[derive(Debug, Clone, PartialEq, Eq)]
pub struct User {
    pub username: String,
    pub email: String,
    pub password: String,
}

/// The mathematical value of a [`User`].
pub struct UserView {
    pub username: Seq<char>,
    pub email: Seq<char>,
    pub password: Seq<char>,
}

impl View for User {
    type V = UserView;

    open spec fn view(&self) -> UserView {
        UserView { username: self.username@, email: self.email@, password: self.password@ }
    }
}

} // verus!

verus! {

/// The body of a create-user request: the password in clear.
#[derive(Debug, Clone, PartialEq, Eq)]
pub struct UserUnhashed {
    pub username: String,
    pub email: String,
    pub password: String,
}

/// The body of a create-user answer.
#[derive(Debug, Clone, PartialEq, Eq)]
pub struct Status {
    pub status: String,
}

/// The account a create-user request stores: the given name and email, and
/// a bcrypt hash of the given password that verifies against it, written as
/// `$2b$12$...` (cost 12). When hashing fails the request is answered with the
/// pass-hashing error status and nothing is stored.
pub fn create_user(payload: UserUnhashed) -> (r: Result<User, Status>)
    ensures
        match r {
            Ok(u) => {
                &&& u.username@ == payload.username@
                &&& u.email@ == payload.email@
                &&& bcrypt_verify(payload.password@, u.password@) == Some(true)
                &&& u.password@.len() == 60
                &&& u.password@.subrange(0, 7) == "$2b$12$"@
            },
            Err(s) => s.status@ == "Error raised while creating the user (pass-hashing)"@,
        },
{
    match hash_password(payload.password.as_str(), PASSWORD_HASH_COST) {
        Ok(pass) => {
            proof {
                reveal_strlit("$2b$");
                reveal_strlit("$2b$12$");
                assert(pass@.subrange(0, 7) =~= "$2b$12$"@) by {
                    assert(pass@.subrange(0, 4)[0] == pass@[0]);
                    assert(pass@.subrange(0, 4)[1] == pass@[1]);
                    assert(pass@.subrange(0, 4)[2] == pass@[2]);
                    assert(pass@.subrange(0, 4)[3] == pass@[3]);
                }
            }
            Ok(User { username: payload.username, email: payload.email, password: pass })
        },
        Err(_) => Err(
            Status { status: "Error raised while creating the user (pass-hashing)".to_owned() },
        ),
    }
}

/// The create-user answer once the insertion of the new account returned.
pub fn create_user_reply(inserted: Result<(), ApiError>) -> (s: Status)
    ensures
        match inserted {
            Ok(_) => s.status@ == "Success"@,
            Err(_) => s.status@ == "Error occured while adding user"@,
        },
{
    match inserted {
        Ok(_) => Status { status: "Success".to_owned() },
        Err(_) => Status { status: "Error occured while adding user".to_owned() },
    }
}

} // verus!
