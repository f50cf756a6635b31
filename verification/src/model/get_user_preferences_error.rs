//! The failures of reading the preferences of a user.

use vstd::prelude::*;

verus! {

/// Why the preferences of a user cannot be read. `ServerFn` holds the
/// message of a failed call of a server function.
#[derive(Clone, Debug)]
pub enum GetUserPreferencesError {
    ServerFn(String),
    Database(String),
}

impl GetUserPreferencesError {
    /// The message that tells what failed.
    pub fn to_string(&self) -> (r: String)
        ensures
            r@ == match self {
                GetUserPreferencesError::ServerFn(m) => "Server function error: "@ + m@,
                GetUserPreferencesError::Database(m) => "Database error: "@ + m@,
            },
    {
        let (mut s, m) = match self {
            GetUserPreferencesError::ServerFn(m) => (String::from_str("Server function error: "), m),
            GetUserPreferencesError::Database(m) => (String::from_str("Database error: "), m),
        };
        s.append(m.as_str());
        s
    }
}

} // verus!
