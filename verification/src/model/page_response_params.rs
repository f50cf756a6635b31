//! What a server tells about the page of a list that it returns.

use vstd::prelude::*;

use crate::model::page_request_params::PageRequestParams;

verus! {

/// A page that starts at item `offset`, holds `len` items, of a list of
/// `total` items.
#[derive(Clone, Copy, Debug, PartialEq, Eq, Structural)]
pub struct PageResponseParams {
    pub offset: usize,
    pub len: usize,
    pub total: usize,
}

impl PageResponseParams {
    /// Whether items follow this page in the list.
    pub open spec fn spec_has_next(self) -> bool {
        self.offset + self.len < self.total
    }

    /// The request for the page after `prev` (the first page when there is
    /// no previous page), or `None` when `prev` was the last page.
    pub open spec fn spec_next_params(prev: Option<Self>, limit: usize) -> Option<PageRequestParams> {
        match prev {
            Some(p) => if p.spec_has_next() {
                Some(PageRequestParams { offset: (p.offset + p.len) as usize, limit })
            } else {
                None
            },
            None => Some(PageRequestParams { offset: 0, limit }),
        }
    }

    /// The request for the page that follows `prev`, asking for `limit`
    /// items; `None` when nothing follows.
    pub fn next_params(prev: Option<Self>, limit: usize) -> (r: Option<PageRequestParams>)
        requires
            prev matches Some(p) ==> p.offset + p.len <= usize::MAX,
        ensures
            r == Self::spec_next_params(prev, limit),
    {
        match prev {
            Some(prev) => {
                if prev.has_next() {
                    Some(PageRequestParams { offset: prev.offset + prev.len, limit })
                } else {
                    None
                }
            },
            None => Some(PageRequestParams { offset: 0, limit }),
        }
    }

    /// Whether items follow this page in the list.
    pub fn has_next(&self) -> (r: bool)
        requires
            self.offset + self.len <= usize::MAX,
        ensures
            r == self.spec_has_next(),
    {
        self.offset + self.len < self.total
    }
}

} // verus!
