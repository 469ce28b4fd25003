use crunchyroll::pagination::{PageResponse, Pagination};
use std::cell::Cell;
use std::cell::RefCell;

fn paged_fetch(
    calls: &Cell<u32>,
    page_size: u32,
    total: u32,
) -> impl Fn(u32, &Vec<(String, String)>) -> Result<PageResponse<u32>, String> + '_ {
    move |off: u32, _ctx: &Vec<(String, String)>| {
        calls.set(calls.get() + 1);
        let n = if off >= total {
            0
        } else {
            (total - off).min(page_size)
        };
        Ok(PageResponse {
            items: (off..off + n).collect(),
            total,
        })
    }
}

#[test]
fn collect_all_gathers_every_page_once() {
    // two full pages of three, then a short final page of one
    let calls = Cell::new(0);
    let mut pag = Pagination::new(paged_fetch(&calls, 3, 7), vec![]);
    let items = pag.collect_all(None).unwrap();
    assert_eq!(items, vec![0, 1, 2, 3, 4, 5, 6]);
    let fetches_so_far = calls.get();
    // once exhausted, further pages are empty and issue no further fetch
    assert_eq!(pag.next_page().unwrap(), Vec::<u32>::new());
    assert_eq!(pag.next_page().unwrap(), Vec::<u32>::new());
    assert_eq!(calls.get(), fetches_so_far);
}

#[test]
fn collect_all_exact_page_boundary() {
    let calls = Cell::new(0);
    let mut pag = Pagination::new(paged_fetch(&calls, 3, 6), vec![]);
    let items = pag.collect_all(None).unwrap();
    assert_eq!(items.len(), 6);
}

#[test]
fn failed_fetch_keeps_the_cursor() {
    let offsets = RefCell::new(Vec::new());
    let fetch = |off: u32, _ctx: &Vec<(String, String)>| -> Result<PageResponse<u32>, String> {
        offsets.borrow_mut().push(off);
        Err(String::from("transport down"))
    };
    let mut pag = Pagination::new(fetch, vec![]);
    let e1 = pag.next_page().unwrap_err();
    assert_eq!(e1.offset, 0);
    assert_eq!(e1.source, "transport down");
    // a retry re-issues the identical request: same offset again
    let e2 = pag.next_page().unwrap_err();
    assert_eq!(e2.offset, 0);
    assert_eq!(*offsets.borrow(), vec![0, 0]);
}

#[test]
fn error_after_good_pages_resumes_at_failing_offset() {
    let fetch = |off: u32, _ctx: &Vec<(String, String)>| -> Result<PageResponse<u32>, String> {
        if off == 0 {
            Ok(PageResponse {
                items: vec![10, 11, 12],
                total: 9,
            })
        } else {
            Err(String::from("flaky"))
        }
    };
    let mut pag = Pagination::new(fetch, vec![]);
    let err = pag.collect_all(None).unwrap_err();
    assert_eq!(err.offset, 3);
}

#[test]
fn empty_page_is_terminal_despite_total() {
    // the endpoint claims 100 items but hands back none
    let calls = Cell::new(0);
    let fetch = |_off: u32, _ctx: &Vec<(String, String)>| -> Result<PageResponse<u32>, String> {
        calls.set(calls.get() + 1);
        Ok(PageResponse {
            items: vec![],
            total: 100,
        })
    };
    let mut pag = Pagination::new(fetch, vec![]);
    assert_eq!(pag.next_page().unwrap(), Vec::<u32>::new());
    assert_eq!(calls.get(), 1);
    // permanently exhausted: no further fetch is ever issued
    assert_eq!(pag.next_page().unwrap(), Vec::<u32>::new());
    assert_eq!(pag.next_page().unwrap(), Vec::<u32>::new());
    assert_eq!(calls.get(), 1);
    let items = pag.collect_all(None).unwrap();
    assert_eq!(items, Vec::<u32>::new());
    assert_eq!(calls.get(), 1);
}

#[test]
fn short_page_is_terminal() {
    // a page shorter than the first one signals the end even below total
    let fetch = |off: u32, _ctx: &Vec<(String, String)>| -> Result<PageResponse<u32>, String> {
        let n = if off == 0 { 3 } else { 1 };
        Ok(PageResponse {
            items: (off..off + n).collect(),
            total: 50,
        })
    };
    let mut pag = Pagination::new(fetch, vec![]);
    assert_eq!(pag.next_page().unwrap().len(), 3);
    assert_eq!(pag.next_page().unwrap().len(), 1);
    // exhausted now: the claimed total of 50 does not matter
    assert_eq!(pag.next_page().unwrap(), Vec::<u32>::new());
}

#[test]
fn context_reaches_every_fetch() {
    let fetch = |off: u32, ctx: &Vec<(String, String)>| -> Result<PageResponse<String>, String> {
        assert_eq!(ctx.len(), 1);
        assert_eq!(ctx[0].0, "account");
        let items = if off == 0 {
            vec![ctx[0].1.clone()]
        } else {
            vec![]
        };
        Ok(PageResponse { items, total: 1 })
    };
    let mut pag = Pagination::new(
        fetch,
        vec![(String::from("account"), String::from("abc"))],
    );
    let items = pag.collect_all(None).unwrap();
    assert_eq!(items, vec![String::from("abc")]);
}

#[test]
fn collect_all_stops_at_max_items() {
    let calls = Cell::new(0);
    let mut pag = Pagination::new(paged_fetch(&calls, 10, 100), vec![]);
    let items = pag.collect_all(Some(25)).unwrap();
    assert_eq!(items.len(), 30);
    assert_eq!(calls.get(), 3);
}

#[test]
fn lazy_sequence_hands_out_items_one_by_one() {
    let calls = Cell::new(0);
    let pag = Pagination::new(paged_fetch(&calls, 3, 5), vec![]);
    let mut lazy = pag.as_lazy_sequence();
    let mut seen = Vec::new();
    while let Some(x) = lazy.next_item().unwrap() {
        seen.push(x);
    }
    assert_eq!(seen, vec![0, 1, 2, 3, 4]);
    // single-pass: once ended, it stays ended
    assert_eq!(lazy.next_item().unwrap(), None);
}

#[test]
fn empty_collection_collects_nothing() {
    let calls = Cell::new(0);
    let mut pag = Pagination::new(paged_fetch(&calls, 20, 0), vec![]);
    assert_eq!(pag.collect_all(None).unwrap(), Vec::<u32>::new());
    assert_eq!(calls.get(), 1);
}

#[test]
fn lazy_sequence_surfaces_fetch_errors_and_recovers() {
    let failures_left = Cell::new(1u32);
    let fetch = |off: u32, _ctx: &Vec<(String, String)>| -> Result<PageResponse<u32>, String> {
        if failures_left.get() > 0 {
            failures_left.set(failures_left.get() - 1);
            Err(String::from("flaky"))
        } else {
            let n = if off == 0 { 2 } else { 0 };
            Ok(PageResponse { items: (off..off + n).collect(), total: 2 })
        }
    };
    let mut lazy = Pagination::new(fetch, vec![]).as_lazy_sequence();
    let err = lazy.next_item().unwrap_err();
    assert_eq!(err.offset, 0);
    // the failed fetch changed nothing: the retry starts over at offset zero
    assert_eq!(lazy.next_item().unwrap(), Some(0));
    assert_eq!(lazy.next_item().unwrap(), Some(1));
    assert_eq!(lazy.next_item().unwrap(), None);
}
