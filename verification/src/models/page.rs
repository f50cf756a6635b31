//! One page of a list, and the request for it.

use vstd::prelude::*;

use crate::model::PageResponseParams;

verus! {

/// The items of one page, and where the page stands in the whole list.
#[derive(Clone, Debug)]
pub struct Page<T> {
    pub params: PageResponseParams,
    pub items: Vec<T>,
}

/// A request for at most `limit` items, starting at item `offset`.
#[derive(Clone, Copy, Debug, PartialEq, Eq, Structural)]
pub struct PageRequestParams {
    pub offset: usize,
    pub limit: usize,
}

impl<T> Page<T> {
    /// The page of `items` that answers `request`, in a list of `total` items.
    pub fn new(request: PageRequestParams, total: usize, items: Vec<T>) -> (r: Self)
        ensures
            r.params.offset == request.offset,
            r.params.len == items.len(),
            r.params.total == total,
            r.items@ == items@,
    {
        let len = items.len();
        Self { params: PageResponseParams { offset: request.offset, len, total }, items }
    }
}

impl PageRequestParams {
    /// The request for the first `limit` items.
    pub fn new(limit: usize) -> (r: Self)
        ensures
            r.offset == 0,
            r.limit == limit,
    {
        Self { offset: 0, limit }
    }
}

} // verus!
