//! User accounts.

use vstd::prelude::*;

verus! {

/// An account: who it belongs to and how it has been used.
pub struct User {
    pub username: String,
    pub email: String,
    pub sign_in_count: u64,
    pub active: bool,
}

/// A new account for `username` with the address `email`: active, and not signed in
/// to yet.
pub fn build_user(email: String, username: String) -> (user: User)
    ensures
        user.email == email,
        user.username == username,
        user.active,
        user.sign_in_count == 0,
{
    User { email, username, active: true, sign_in_count: 0 }
}

} // verus!
