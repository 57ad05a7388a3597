//! User accounts.

use vstd::prelude::*;
use vstd::string::StringExecFns;

verus! {

/// An account.
pub struct User {
    pub active: bool,
    pub username: String,
    pub email: String,
    pub sign_in_count: u64,
}

/// A new account: active, and signed in once.
pub fn build_user(email: &str, username: &str) -> (user: User)
    ensures
        user.active,
        user.username@ == username@,
        user.email@ == email@,
        user.sign_in_count == 1,
{
    User {
        active: true,
        username: String::from_str(username),
        email: String::from_str(email),
        sign_in_count: 1,
    }
}

} // verus!
