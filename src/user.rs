//! The identities that the cache keeps.
use vstd::prelude::*;

verus! {

/// A GitHub user as the cache keeps it: one username per email address.
#[derive(Debug)]
pub struct GithubUser {
    /// The public email address associated with the user.
    pub email: String,
    /// The user's username.
    pub username: String,
}

impl GithubUser {
    /// Builds a cache entry.
    pub fn new(email: String, username: String) -> (r: Self)
        ensures
            r.email@ == email@,
            r.username@ == username@,
    {
        GithubUser { email, username }
    }
}

} // verus!
