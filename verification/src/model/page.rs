//! One page of a list.

use vstd::prelude::*;

use crate::model::page_request_params::PageRequestParams;
use crate::model::page_response_params::PageResponseParams;

verus! {

/// The items of one page, and where the page stands in the whole list.
#[derive(Clone, Debug)]
pub struct Page<T> {
    pub params: PageResponseParams,
    pub items: Vec<T>,
}

impl<T> Page<T> {
    /// The page of `items` that answers `request`, in a list of `total` items.
    pub fn new(request: PageRequestParams, total: usize, items: Vec<T>) -> (r: Self)
        ensures
            r.params.offset == request.offset,
            r.params.len == items.len(),
            r.params.total == total,
            r.items@ == items@,
    {
        let len = items.len();
        Self { params: PageResponseParams { offset: request.offset, len, total }, items }
    }
}

} // verus!
