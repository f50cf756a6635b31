//! The identifier of a user.

use vstd::prelude::*;

use crate::model::DatabaseId;
use crate::text::{push_signed_decimal, signed_decimal};

verus! {

/// A user of the tally sheet.
#[derive(Clone, Copy, Debug, PartialEq, Eq, Structural, Hash)]
pub struct UserId(pub DatabaseId);

impl UserId {
    /// The decimal notation of the identifier.
    pub fn to_string(&self) -> (r: String)
        ensures
            r@ == signed_decimal(self.0 as int),
    {
        let mut s = String::new();
        push_signed_decimal(&mut s, self.0);
        assert(s@ =~= signed_decimal(self.0 as int));
        s
    }
}

} // verus!
