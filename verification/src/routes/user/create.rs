//! Creating a user.

use vstd::prelude::*;

use crate::text::{trim, trimmed};

verus! {

/// The failure to create a user: the name is empty.
#[derive(Clone, Copy, Debug, PartialEq, Eq, Structural)]
pub struct EmptyUsername;

impl EmptyUsername {
    /// The message that the client is given.
    pub fn message(&self) -> (r: &'static str)
        ensures
            r@ == "Name cannot be empty!"@,
    {
        "Name cannot be empty!"
    }
}

/// The nickname under which a user is created from the text `username`: it
/// must not be empty, and is stored trimmed.
pub fn create_user(username: &str) -> (r: Result<String, EmptyUsername>)
    ensures
        username@.len() == 0 ==> r == Err::<String, EmptyUsername>(EmptyUsername),
        username@.len() != 0 ==> (r matches Ok(name) && name@ == trimmed(username@)),
{
    if username.unicode_len() == 0 {
        return Err(EmptyUsername);
    }
    Ok(trim(username))
}

} // verus!
