//! What a client asks for when it reads one page of a list.

use vstd::prelude::*;

verus! {

/// A request for at most `limit` items, starting at item `offset`.
#[derive(Clone, Copy, Debug, PartialEq, Eq, Structural)]
pub struct PageRequestParams {
    pub offset: usize,
    pub limit: usize,
}

impl PageRequestParams {
    /// The request for the first `limit` items.
    pub fn new(limit: usize) -> (r: Self)
        ensures
            r.offset == 0,
            r.limit == limit,
    {
        Self { offset: 0, limit }
    }
}

} // verus!
