//! The failures of storing the preferences of a user.

use vstd::prelude::*;

use crate::model::UserId;
use crate::text::{push_signed_decimal, signed_decimal};

verus! {

/// Why the preferences of a user cannot be stored. `ServerFn` holds the
/// message of a failed call of a server function.
#[derive(Clone, Debug)]
pub enum SetUserPreferencesError {
    ServerFn(String),
    Database(String),
    UserDoesNotExist(UserId),
}

impl SetUserPreferencesError {
    /// The message that tells what failed.
    pub fn to_string(&self) -> (r: String)
        ensures
            r@ == match self {
                SetUserPreferencesError::ServerFn(m) => "Server function error: "@ + m@,
                SetUserPreferencesError::Database(m) => "Database error: "@ + m@,
                SetUserPreferencesError::UserDoesNotExist(id) =>
                    "User with id '"@ + signed_decimal(id.0 as int) + "' does not exist"@,
            },
    {
        match self {
            SetUserPreferencesError::ServerFn(m) => {
                let mut s = String::from_str("Server function error: ");
                s.append(m.as_str());
                s
            },
            SetUserPreferencesError::Database(m) => {
                let mut s = String::from_str("Database error: ");
                s.append(m.as_str());
                s
            },
            SetUserPreferencesError::UserDoesNotExist(id) => {
                let mut s = String::from_str("User with id '");
                push_signed_decimal(&mut s, id.0);
                s.append("' does not exist");
                s
            },
        }
    }
}

} // verus!
