use strichliste::model::{Page, PageRequestParams, PageResponseParams};
use strichliste::models;
use strichliste::routes::user::extra_transactions::show::{next_page, page_request, previous_page};

#[test]
fn page_request_params_start_at_the_first_item() {
    let p = PageRequestParams::new(25);
    assert_eq!(p.offset, 0);
    assert_eq!(p.limit, 25);
    let q = models::PageRequestParams::new(7);
    assert_eq!(q.offset, 0);
    assert_eq!(q.limit, 7);
}

#[test]
fn page_new_counts_its_items() {
    let request = PageRequestParams { offset: 10, limit: 5 };
    let page = Page::new(request, 42, vec!['a', 'b', 'c']);
    assert_eq!(page.params.offset, 10);
    assert_eq!(page.params.len, 3);
    assert_eq!(page.params.total, 42);
    assert_eq!(page.items, vec!['a', 'b', 'c']);

    let request = models::PageRequestParams { offset: 0, limit: 2 };
    let page = models::Page::new(request, 2, vec![1u8, 2]);
    assert_eq!(page.params.offset, 0);
    assert_eq!(page.params.len, 2);
    assert_eq!(page.params.total, 2);
}

#[test]
fn has_next_when_items_follow() {
    assert!(PageResponseParams { offset: 0, len: 10, total: 11 }.has_next());
    assert!(!PageResponseParams { offset: 0, len: 10, total: 10 }.has_next());
    assert!(!PageResponseParams { offset: 5, len: 0, total: 5 }.has_next());
}

#[test]
fn next_params_follow_the_previous_page() {
    let first = PageResponseParams::next_params(None, 20).unwrap();
    assert_eq!(first.offset, 0);
    assert_eq!(first.limit, 20);

    let prev = PageResponseParams { offset: 20, len: 20, total: 55 };
    let next = PageResponseParams::next_params(Some(prev), 20).unwrap();
    assert_eq!(next.offset, 40);
    assert_eq!(next.limit, 20);

    let last = PageResponseParams { offset: 40, len: 15, total: 55 };
    assert!(PageResponseParams::next_params(Some(last), 20).is_none());
}

#[test]
fn page_request_skips_whole_pages() {
    let r = page_request(3, 10);
    assert_eq!(r.offset, 30);
    assert_eq!(r.limit, 10);
    let r = page_request(0, 10);
    assert_eq!(r.offset, 0);
}

#[test]
fn previous_page_stops_at_the_first() {
    assert_eq!(previous_page(0), 0);
    assert_eq!(previous_page(1), 0);
    assert_eq!(previous_page(5), 4);
}

#[test]
fn next_page_only_after_a_full_page() {
    assert_eq!(next_page(0, 10, 10), 1);
    assert_eq!(next_page(2, 9, 10), 2);
    assert_eq!(next_page(2, 0, 10), 2);
    assert_eq!(next_page(0, 0, 0), 0);
}

#[test]
fn next_then_previous_page_comes_back() {
    for (page, count, per_page) in [(0usize, 10usize, 10usize), (4, 25, 10), (7, 3, 10)] {
        let next = next_page(page, count, per_page);
        if next != page {
            assert_eq!(previous_page(next), page);
        }
    }
}
