//! Account records and their builder.

use vstd::prelude::*;

verus! {

/// An account record.
#[derive(Debug)]
pub struct User {
    pub active: bool,
    pub username: String,
    pub email: String,
    pub sign_in_count: u64,
}

/// Build a fresh record for the given address and name: active from the
/// start, with a single sign-in on the counter.
pub fn build_user(email: String, username: String) -> (u: User)
    ensures
        u.active == true,
        u.username@ == username@,
        u.email@ == email@,
        u.sign_in_count == 1,
{
    User { active: true, username, email, sign_in_count: 1 }
}

} // verus!
