//! Paging through the transactions of a user, a fixed number per page.

use vstd::prelude::*;

use crate::model::PageRequestParams;

verus! {

/// The request for page number `page_count` (counted from 0) of
/// `transactions_per_page` transactions.
pub fn page_request(page_count: usize, transactions_per_page: usize) -> (r: PageRequestParams)
    requires
        page_count * transactions_per_page <= usize::MAX,
    ensures
        r.offset == page_count * transactions_per_page,
        r.limit == transactions_per_page,
{
    PageRequestParams { offset: page_count * transactions_per_page, limit: transactions_per_page }
}

/// The page before page `page_count`; the first page stays.
pub open spec fn previous_page_of(page_count: int) -> int {
    if page_count != 0 { page_count - 1 } else { 0 }
}

/// The page after page `page_count`, which shows `transaction_count`
/// transactions: it stays when the page is empty or not full.
pub open spec fn next_page_of(page_count: int, transaction_count: int, transactions_per_page: int) -> int {
    if transaction_count == 0 || transaction_count < transactions_per_page {
        page_count
    } else {
        page_count + 1
    }
}

/// The page before page `page_count`; the first page stays.
pub fn previous_page(page_count: usize) -> (r: usize)
    ensures
        r == previous_page_of(page_count as int),
{
    if page_count != 0 {
        page_count - 1
    } else {
        page_count
    }
}

/// The page after page `page_count`, which shows `transaction_count`
/// transactions: there is none (the page stays) when the page is empty or
/// shows fewer than a full page.
pub fn next_page(page_count: usize, transaction_count: usize, transactions_per_page: usize) -> (r: usize)
    requires
        transaction_count != 0 && transaction_count >= transactions_per_page ==> page_count < usize::MAX,
    ensures
        r == next_page_of(page_count as int, transaction_count as int, transactions_per_page as int),
{
    if transaction_count == 0 {
        return page_count;
    }
    if transaction_count < transactions_per_page {
        return page_count;
    }
    page_count + 1
}

/// Going to the next page after a full page, and then back, leads to the
/// page one started from; going back never leaves the first page.
pub proof fn next_then_previous_page(page_count: int, transaction_count: int, transactions_per_page: int)
    requires
        page_count >= 0,
        transaction_count != 0,
        transaction_count >= transactions_per_page,
    ensures
        previous_page_of(next_page_of(page_count, transaction_count, transactions_per_page)) == page_count,
        previous_page_of(0) == 0,
{
}

} // verus!
