use ebook_crawler::coordinator::{Coordinator, MAX_IN_FLIGHT};

#[test]
fn the_ceiling_is_eight() {
    assert_eq!(MAX_IN_FLIGHT, 8);
}

#[test]
fn never_more_than_the_ceiling_in_flight() {
    // Drive 30 pages, completing one fetch only when no more can be
    // launched, and watch the high-water mark of in-flight fetches.
    let mut c = Coordinator::new(30);
    let mut launched: Vec<usize> = Vec::new();
    let mut peak: usize = 0;
    while !c.finished() {
        match c.try_launch() {
            Some(page) => {
                launched.push(page);
                if c.in_flight > peak {
                    peak = c.in_flight;
                }
            }
            None => {
                assert!(c.in_flight > 0);
                c.complete_one();
            }
        }
    }
    assert_eq!(peak, MAX_IN_FLIGHT);
    assert_eq!(c.completed, 30);
    // Every page was attempted exactly once, in order.
    let expected: Vec<usize> = (1..=30).collect();
    assert_eq!(launched, expected);
}

#[test]
fn completion_order_does_not_matter() {
    // Complete eagerly after every launch: the ceiling is never reached,
    // and every page is still attempted exactly once.
    let mut c = Coordinator::new(5);
    let mut launched: Vec<usize> = Vec::new();
    while !c.finished() {
        if let Some(page) = c.try_launch() {
            launched.push(page);
        }
        if c.in_flight > 0 {
            c.complete_one();
        }
        assert!(c.in_flight <= MAX_IN_FLIGHT);
    }
    assert_eq!(launched, vec![1, 2, 3, 4, 5]);
    assert_eq!(c.completed, 5);
}

#[test]
fn a_book_with_no_pages_is_finished_at_once() {
    let c = Coordinator::new(0);
    assert!(c.finished());
}

#[test]
fn fewer_pages_than_the_ceiling_all_launch_at_once() {
    let mut c = Coordinator::new(3);
    assert_eq!(c.try_launch(), Some(1));
    assert_eq!(c.try_launch(), Some(2));
    assert_eq!(c.try_launch(), Some(3));
    assert_eq!(c.try_launch(), None);
    assert_eq!(c.in_flight, 3);
}

#[test]
fn a_full_window_refuses_the_ninth_launch() {
    let mut c = Coordinator::new(20);
    for p in 1..=8 {
        assert_eq!(c.try_launch(), Some(p));
    }
    assert_eq!(c.try_launch(), None);
    assert_eq!(c.in_flight, 8);
    c.complete_one();
    assert_eq!(c.try_launch(), Some(9));
}
