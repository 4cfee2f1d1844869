use cnb_cli::pagination::{PageCollector, PageStep, DEFAULT_LIST_PAGE_SIZE, EXCEEDED_MESSAGE, MAX_AUTO_PAGES};

fn next<T>(step: PageStep<T>) -> PageCollector<T> {
    match step {
        PageStep::Next(c) => c,
        _ => panic!("expected another page"),
    }
}

#[test]
fn collector_starts_at_given_or_first_page() {
    let c: PageCollector<u8> = PageCollector::new(None, None, DEFAULT_LIST_PAGE_SIZE);
    assert_eq!((c.page(), c.page_size()), (1, 30));
    let c: PageCollector<u8> = PageCollector::new(Some(3), Some(5), 30);
    assert_eq!((c.page(), c.page_size()), (3, 5));
}

#[test]
fn collector_follows_full_pages_and_stops_at_a_short_one() {
    let c = PageCollector::new(Some(2), Some(2), 30);
    let c = next(c.receive(vec![1, 2]));
    assert_eq!(c.page(), 3);
    let c = next(c.receive(vec![3, 4]));
    assert_eq!(c.page(), 4);
    match c.receive(vec![5]) {
        PageStep::Done(items) => assert_eq!(items, vec![1, 2, 3, 4, 5]),
        _ => panic!("expected the end"),
    }
}

#[test]
fn collector_stops_at_an_empty_page() {
    let c = PageCollector::new(None, Some(2), 30);
    let c = next(c.receive(vec![1, 2]));
    match c.receive(Vec::new()) {
        PageStep::Done(items) => assert_eq!(items, vec![1, 2]),
        _ => panic!("expected the end"),
    }
    let c: PageCollector<u8> = PageCollector::new(None, None, 30);
    assert!(matches!(c.receive(Vec::new()), PageStep::Done(v) if v.is_empty()));
}

#[test]
fn collector_gives_up_after_the_page_limit() {
    let mut c = PageCollector::new(None, Some(1), 30);
    for i in 1..MAX_AUTO_PAGES {
        c = next(c.receive(vec![i]));
    }
    assert_eq!(c.page(), MAX_AUTO_PAGES);
    assert!(matches!(c.receive(vec![0]), PageStep::Exceeded));
    assert_eq!(EXCEEDED_MESSAGE, "pagination exceeded 1000 pages; aborting");
}

#[test]
fn zero_page_size_never_ends_early() {
    let c = PageCollector::new(None, Some(0), 30);
    let c = next(c.receive(vec![1]));
    assert_eq!(c.page(), 2);
}
