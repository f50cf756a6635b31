//! Settings that a user chooses for the user interface.

use vstd::prelude::*;

verus! {

/// The preferences of one user.
#[derive(Clone, Copy, Debug)]
pub struct UserPreferences {
    pub alternative_coloring: bool,
}

impl Default for UserPreferences {
    fn default() -> (r: Self)
        ensures
            !r.alternative_coloring,
    {
        UserPreferences { alternative_coloring: false }
    }
}

} // verus!
