use vstd::prelude::*;

verus! {

/// An account record: who the user is and how often they have signed in.
pub struct User {
    pub active: bool,
    pub username: String,
    pub email: String,
    pub sign_in_count: u64,
}

impl User {
    /// A fresh account: active, with exactly one sign-in on record.
    pub fn new(username: String, email: String) -> (user: User)
        ensures
            user.active,
            user.username == username,
            user.email == email,
            user.sign_in_count == 1,
    {
        User { active: true, username, email, sign_in_count: 1 }
    }
}

/// The same fresh account as [`User::new`], with the e-mail address given first.
pub fn build_user(email: String, username: String) -> (user: User)
    ensures
        user.active,
        user.username == username,
        user.email == email,
        user.sign_in_count == 1,
{
    User { active: true, username, email, sign_in_count: 1 }
}

} // verus!
