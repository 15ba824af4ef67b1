use std::cell::RefCell;

use rustrbx::point;
use rustrbx::AsyncItemIterator;
use rustrbx::AsyncTimeline;
use rustrbx::CursorError;
use rustrbx::Gathered;
use rustrbx::PageCursor;
use rustrbx::PrefetchStep;
use rustrbx::Probe;
use rustrbx::Pull;
use rustrbx::Request;
use rustrbx::TimelineError;
use rustrbx::PAGE_SIZE;

const ENDPOINT: &str = "https://example.test/v1/things";

type Page = PageCursor<Vec<String>>;

fn token(i: usize) -> String {
    format!("c{}", i)
}

fn request_for(i: usize) -> Request {
    point(&ENDPOINT.to_string(), &token(i))
}

/// A server of one collection that keeps a record of what it was asked. Pages
/// listed as down cannot be fetched.
struct Server {
    pages: Vec<Page>,
    down: Vec<usize>,
    asked: RefCell<Vec<Request>>,
}

impl Server {
    /// The collection whose pages hold these items. Page `i` is asked for with
    /// the token `c<i>`.
    fn of(pages: &[Vec<String>]) -> Server {
        let count = pages.len();
        let pages = pages
            .iter()
            .enumerate()
            .map(|(i, items)| PageCursor {
                base_url: ENDPOINT.to_string(),
                previous_page_cursor: if i > 0 { Some(token(i - 1)) } else { None },
                next_page_cursor: if i + 1 < count { Some(token(i + 1)) } else { None },
                data: items.clone(),
            })
            .collect();
        Server { pages, down: Vec::new(), asked: RefCell::new(Vec::new()) }
    }

    fn first(&self) -> Page {
        self.pages[0].clone()
    }

    fn fetch(&self, request: &Request) -> Result<Page, String> {
        self.asked.borrow_mut().push(request.clone());
        for (i, page) in self.pages.iter().enumerate() {
            if &request_for(i) == request {
                if self.down.contains(&i) {
                    return Err(format!("page {} is down", i));
                }
                return Ok(page.clone());
            }
        }
        Err(format!("no route to {}", request.url))
    }

    fn fetches(&self) -> usize {
        self.asked.borrow().len()
    }
}

fn numbered(from: usize, to: usize) -> Vec<String> {
    (from..to).map(|n| format!("item{}", n)).collect()
}

fn words(items: &[&str]) -> Vec<String> {
    items.iter().map(|i| i.to_string()).collect()
}

/// One whole `next`: the first phase, then the fetch it asks for, if any.
fn next(iterator: &mut AsyncItemIterator<String>, server: &Server) -> Result<String, TimelineError<String>> {
    match iterator.next() {
        Ok(Pull::Item(item)) => Ok(item),
        Ok(Pull::Fetch(request)) => {
            let fetched = server.fetch(&request);
            if let Ok(page) = &fetched {
                assert!(!page.data.is_empty(), "the page fetched holds no item");
            }
            iterator.next_fetched(fetched)
        }
        Err(e) => Err(TimelineError::Cursor(e)),
    }
}

/// One whole `has_remaining`.
fn has_remaining(iterator: &AsyncItemIterator<String>, server: &Server) -> bool {
    match iterator.has_remaining() {
        Probe::Known(answer) => answer,
        Probe::Fetch(request) => iterator.has_remaining_fetched(&server.fetch(&request)),
    }
}

/// One whole `with_capacity`.
fn with_capacity(page: Page, capacity: u32, server: &Server) -> (AsyncItemIterator<String>, Gathered) {
    let mut step = AsyncItemIterator::with_capacity(page, capacity);
    loop {
        match step {
            PrefetchStep::Done(iterator, gathered) => return (iterator, gathered),
            PrefetchStep::Fetch(request, prefetch) => {
                step = prefetch.resume(server.fetch(&request));
            }
        }
    }
}

fn held(iterator: AsyncItemIterator<String>) -> Page {
    iterator.current().into_page()
}

fn exhausted() -> Result<String, TimelineError<String>> {
    Err(TimelineError::Cursor(CursorError::NoNextCursor))
}

fn drains_to(split: &[Vec<String>], expected: &[String]) {
    let server = Server::of(split);
    let mut iterator = AsyncItemIterator::new(server.first().timeline());
    for item in expected {
        assert_eq!(next(&mut iterator, &server), Ok(item.clone()));
    }
    assert_eq!(next(&mut iterator, &server), exhausted());
    assert_eq!(next(&mut iterator, &server), exhausted());
}

#[test]
fn new_starts_with_the_page_of_the_timeline() {
    let server = Server::of(&[words(&["a", "b"]), words(&["c"])]);
    let iterator = AsyncItemIterator::new(server.first().timeline());
    assert_eq!(iterator.current().page(), &server.first());
}

#[test]
fn next_takes_the_first_item_without_fetching() {
    let server = Server::of(&[words(&["a", "b"]), words(&["c"])]);
    let mut iterator = AsyncItemIterator::new(server.first().timeline());
    assert_eq!(iterator.next(), Ok(Pull::Item("a".to_string())));
    assert_eq!(iterator.next(), Ok(Pull::Item("b".to_string())));
    assert_eq!(server.fetches(), 0);
    let left = held(iterator);
    assert!(left.data.is_empty());
    assert_eq!(left.next_page_cursor, Some(token(1)));
    assert_eq!(left.previous_page_cursor, None);
    assert_eq!(left.base_url, ENDPOINT);
}

#[test]
fn next_on_a_used_up_page_asks_for_the_next_page_and_changes_nothing() {
    let server = Server::of(&[vec![], words(&["c"])]);
    let mut iterator = AsyncItemIterator::new(server.first().timeline());
    assert_eq!(iterator.next(), Ok(Pull::Fetch(request_for(1))));
    assert_eq!(iterator.next(), Ok(Pull::Fetch(request_for(1))));
    assert_eq!(held(iterator), server.first());
}

#[test]
fn next_fetched_replaces_the_page_and_takes_its_first_item() {
    let server = Server::of(&[vec![], words(&["c", "d"]), words(&["e"])]);
    let mut iterator = AsyncItemIterator::new(server.first().timeline());
    let item = iterator.next_fetched::<String>(Ok(server.pages[1].clone()));
    assert_eq!(item, Ok("c".to_string()));
    let left = held(iterator);
    assert_eq!(left.data, words(&["d"]));
    assert_eq!(left.next_page_cursor, Some(token(2)));
    assert_eq!(left.previous_page_cursor, Some(token(0)));
}

#[test]
fn next_fetched_checked_refuses_a_page_without_items() {
    let server = Server::of(&[vec![], vec![], words(&["c"])]);
    let mut iterator = AsyncItemIterator::new(server.first().timeline());
    let refused = iterator.next_fetched_checked::<String>(Ok(server.pages[1].clone()));
    assert_eq!(refused, None);
    assert_eq!(iterator.next(), Ok(Pull::Fetch(request_for(1))));

    let taken = iterator.next_fetched_checked::<String>(Ok(server.pages[2].clone()));
    assert_eq!(taken, Some(Ok("c".to_string())));

    let failed = iterator.next_fetched_checked(Err("timed out".to_string()));
    assert_eq!(failed, Some(Err(TimelineError::Fetch("timed out".to_string()))));
    assert_eq!(iterator.next(), Err(CursorError::NoNextCursor));
}

#[test]
fn next_hands_a_failed_fetch_back_unchanged_and_can_be_tried_again() {
    let mut server = Server::of(&[words(&["a"]), words(&["b"])]);
    server.down.push(1);
    let mut iterator = AsyncItemIterator::new(server.first().timeline());
    assert_eq!(next(&mut iterator, &server), Ok("a".to_string()));
    assert_eq!(
        next(&mut iterator, &server),
        Err(TimelineError::Fetch("page 1 is down".to_string()))
    );
    server.down.clear();
    assert_eq!(next(&mut iterator, &server), Ok("b".to_string()));
    assert_eq!(next(&mut iterator, &server), exhausted());
}

#[test]
fn next_returns_all_items_in_order_for_any_split() {
    let items = numbered(0, 6);
    let splits: Vec<Vec<usize>> = vec![
        vec![6],
        vec![1, 5],
        vec![5, 1],
        vec![3, 3],
        vec![2, 2, 2],
        vec![1, 1, 1, 1, 1, 1],
        vec![0, 6],
        vec![0, 2, 4],
        vec![4, 1, 1],
    ];
    for sizes in splits {
        let mut pages = Vec::new();
        let mut start = 0;
        for size in sizes {
            pages.push(items[start..start + size].to_vec());
            start += size;
        }
        drains_to(&pages, &items);
    }
}

#[test]
fn next_on_an_empty_collection_reports_exhaustion() {
    drains_to(&[vec![]], &[]);
}

#[test]
fn next_fetches_each_later_page_once() {
    let server = Server::of(&[numbered(0, 2), numbered(2, 4), numbered(4, 6)]);
    let mut iterator = AsyncItemIterator::new(server.first().timeline());
    for item in numbered(0, 6) {
        assert_eq!(next(&mut iterator, &server), Ok(item));
    }
    assert_eq!(*server.asked.borrow(), vec![request_for(1), request_for(2)]);
    assert_eq!(next(&mut iterator, &server), exhausted());
    assert_eq!(server.fetches(), 2);
}

#[test]
fn has_remaining_with_items_on_the_page_needs_no_fetch() {
    let server = Server::of(&[words(&["a"]), words(&["b"])]);
    let mut iterator = AsyncItemIterator::new(server.first().timeline());
    assert_eq!(iterator.has_remaining(), Probe::Known(true));
    assert!(has_remaining(&iterator, &server));
    assert_eq!(server.fetches(), 0);
    assert_eq!(next(&mut iterator, &server), Ok("a".to_string()));
}

#[test]
fn has_remaining_on_a_used_up_page_looks_at_the_next_page() {
    let server = Server::of(&[vec![], words(&["b"])]);
    let mut iterator = AsyncItemIterator::new(server.first().timeline());
    assert_eq!(iterator.has_remaining(), Probe::Fetch(request_for(1)));
    assert!(has_remaining(&iterator, &server));
    assert_eq!(server.fetches(), 1);
    assert_eq!(next(&mut iterator, &server), Ok("b".to_string()));
}

#[test]
fn has_remaining_on_an_exhausted_collection_is_false_without_a_fetch() {
    let server = Server::of(&[words(&["a"])]);
    let mut iterator = AsyncItemIterator::new(server.first().timeline());
    assert_eq!(next(&mut iterator, &server), Ok("a".to_string()));
    assert_eq!(iterator.has_remaining(), Probe::Known(false));
    assert!(!has_remaining(&iterator, &server));
    assert_eq!(server.fetches(), 0);
    assert_eq!(next(&mut iterator, &server), exhausted());
}

#[test]
fn has_remaining_agrees_with_next_in_every_state() {
    let server = Server::of(&[numbered(0, 2), numbered(2, 3), numbered(3, 5)]);
    let mut iterator = AsyncItemIterator::new(server.first().timeline());
    for _ in 0..8 {
        let expected = has_remaining(&iterator, &server);
        assert_eq!(next(&mut iterator, &server).is_ok(), expected);
    }
}

#[test]
fn has_remaining_counts_a_failed_fetch_as_nothing_left() {
    let mut server = Server::of(&[vec![], words(&["b"])]);
    server.down.push(1);
    let iterator = AsyncItemIterator::new(server.first().timeline());
    assert!(!has_remaining(&iterator, &server));
    assert!(!iterator.has_remaining_fetched::<String>(&Err("timed out".to_string())));
}

#[test]
fn has_remaining_counts_an_empty_next_page_as_nothing_left() {
    let server = Server::of(&[vec![], vec![], words(&["c"])]);
    let iterator = AsyncItemIterator::new(server.first().timeline());
    assert!(!has_remaining(&iterator, &server));
    assert!(iterator.has_remaining_fetched::<String>(&Ok(server.pages[2].clone())));
}

#[test]
fn has_remaining_leaves_the_iterator_as_it_was() {
    let server = Server::of(&[vec![], words(&["b"])]);
    let iterator = AsyncItemIterator::new(server.first().timeline());
    assert!(has_remaining(&iterator, &server));
    assert!(has_remaining(&iterator, &server));
    assert_eq!(server.fetches(), 2);
    assert_eq!(held(iterator), server.first());
}

#[test]
fn page_size_is_one_hundred() {
    assert_eq!(PAGE_SIZE, 100);
}

#[test]
fn with_capacity_zero_keeps_the_page_and_fetches_nothing() {
    let server = Server::of(&[numbered(0, 100), numbered(100, 200)]);
    let (iterator, gathered) = with_capacity(server.first(), 0, &server);
    assert_eq!(gathered, Gathered { items: 0, filled: 0 });
    assert_eq!(server.fetches(), 0);
    assert_eq!(held(iterator), server.first());
}

#[test]
fn with_capacity_on_the_only_page_fetches_nothing() {
    let server = Server::of(&[words(&["a", "b", "c"])]);
    match AsyncItemIterator::with_capacity(server.first(), 250) {
        PrefetchStep::Done(iterator, gathered) => {
            assert_eq!(gathered, Gathered { items: 3, filled: 100 });
            assert_eq!(held(iterator), server.first());
        }
        PrefetchStep::Fetch(..) => panic!("the prefetch asked for a page that does not exist"),
    }
}

#[test]
fn with_capacity_ends_at_once_when_the_first_fetch_fails() {
    let mut server = Server::of(&[words(&["a", "b"]), words(&["c"])]);
    server.down.push(1);
    let (iterator, gathered) = with_capacity(server.first(), 1, &server);
    assert_eq!(gathered, Gathered { items: 2, filled: 1 });
    assert_eq!(server.fetches(), 1);
    assert_eq!(held(iterator), server.first());
}

#[test]
fn with_capacity_first_step_asks_for_the_next_page() {
    let server = Server::of(&[numbered(0, 100), numbered(100, 200)]);
    match AsyncItemIterator::with_capacity(server.first(), 1) {
        PrefetchStep::Fetch(request, _) => assert_eq!(request, request_for(1)),
        PrefetchStep::Done(..) => panic!("the prefetch ended before it asked for a page"),
    }
}

#[test]
fn with_capacity_of_one_page_gathers_it_and_ends_on_the_next() {
    let server = Server::of(&[numbered(0, 100), numbered(100, 200), numbered(200, 300)]);
    let (iterator, gathered) = with_capacity(server.first(), 100, &server);
    assert_eq!(gathered, Gathered { items: 100, filled: 100 });
    assert_eq!(server.fetches(), 1);
    let page = held(iterator);
    assert_eq!(page.data, numbered(0, 200));
    assert_eq!(page.next_page_cursor, Some(token(2)));
    assert_eq!(page.previous_page_cursor, Some(token(0)));
}

#[test]
fn with_capacity_counts_a_begun_page_as_a_whole_one() {
    let server = Server::of(&[
        numbered(0, 100),
        numbered(100, 200),
        numbered(200, 300),
        numbered(300, 400),
    ]);
    let (iterator, gathered) = with_capacity(server.first(), 101, &server);
    assert_eq!(gathered, Gathered { items: 200, filled: 101 });
    assert_eq!(server.fetches(), 2);
    let page = held(iterator);
    assert_eq!(page.data, numbered(0, 300));
    assert_eq!(page.next_page_cursor, Some(token(3)));
}

#[test]
fn with_capacity_counts_pages_not_items() {
    let server = Server::of(&[numbered(0, 3), numbered(3, 5), numbered(5, 9), numbered(9, 10)]);
    let (iterator, gathered) = with_capacity(server.first(), 200, &server);
    assert_eq!(gathered, Gathered { items: 5, filled: 200 });
    assert_eq!(server.fetches(), 2);
    let page = held(iterator);
    assert_eq!(page.data, numbered(0, 9));
    assert_eq!(page.next_page_cursor, Some(token(3)));
}

#[test]
fn with_capacity_250_over_three_pages_of_100() {
    let server = Server::of(&[numbered(0, 100), numbered(100, 200), numbered(200, 300)]);
    let (mut iterator, gathered) = with_capacity(server.first(), 250, &server);
    assert_eq!(gathered.filled, 250);
    assert_eq!(gathered.items, 300);
    assert_eq!(server.fetches(), 2);
    for item in numbered(0, 250) {
        assert_eq!(iterator.next(), Ok(Pull::Item(item)));
    }
    for item in numbered(250, 300) {
        assert_eq!(next(&mut iterator, &server), Ok(item));
    }
    assert_eq!(next(&mut iterator, &server), exhausted());
    assert_eq!(server.fetches(), 2);
}

#[test]
fn with_capacity_beyond_the_collection_takes_what_there_is() {
    let server = Server::of(&[numbered(0, 100), numbered(100, 130)]);
    let (mut iterator, gathered) = with_capacity(server.first(), u32::MAX, &server);
    assert_eq!(gathered, Gathered { items: 130, filled: 200 });
    assert_eq!(server.fetches(), 1);
    for item in numbered(0, 130) {
        assert_eq!(iterator.next(), Ok(Pull::Item(item)));
    }
    assert_eq!(next(&mut iterator, &server), exhausted());
    let page = held(iterator);
    assert!(page.data.is_empty());
    assert_eq!(page.next_page_cursor, None);
    assert_eq!(page.previous_page_cursor, Some(token(0)));
}

#[test]
fn with_capacity_takes_a_failed_fetch_for_the_end() {
    let mut server = Server::of(&[numbered(0, 100), numbered(100, 200), numbered(200, 300)]);
    server.down.push(2);
    let (mut iterator, gathered) = with_capacity(server.first(), 1000, &server);
    assert_eq!(gathered, Gathered { items: 200, filled: 200 });
    assert_eq!(server.fetches(), 2);
    for item in numbered(0, 200) {
        assert_eq!(iterator.next(), Ok(Pull::Item(item)));
    }
    assert_eq!(iterator.next(), Ok(Pull::Fetch(request_for(2))));
    server.down.clear();
    assert_eq!(next(&mut iterator, &server), Ok("item200".to_string()));
}

#[test]
fn with_capacity_puts_gathered_items_before_those_of_the_last_page() {
    let server = Server::of(&[words(&["a", "b"]), words(&["c"]), words(&["d", "e"])]);
    let (iterator, gathered) = with_capacity(server.first(), 150, &server);
    assert_eq!(gathered, Gathered { items: 3, filled: 150 });
    assert_eq!(held(iterator).data, words(&["a", "b", "c", "d", "e"]));
}

#[test]
fn with_capacity_hands_out_what_an_iterator_without_prefetch_does() {
    let pages = [numbered(0, 4), numbered(4, 5), numbered(5, 9), numbered(9, 12)];
    for capacity in [0, 1, 99, 100, 101, 200, 201, 300, 1000] {
        let server = Server::of(&pages);
        let (mut iterator, _) = with_capacity(server.first(), capacity, &server);
        for item in numbered(0, 12) {
            assert_eq!(next(&mut iterator, &server), Ok(item));
        }
        assert_eq!(next(&mut iterator, &server), exhausted());
    }
}

#[test]
fn two_pages_are_read_through_and_back() {
    let first: Page = PageCursor {
        base_url: ENDPOINT.to_string(),
        previous_page_cursor: None,
        next_page_cursor: Some("c1".to_string()),
        data: words(&["a", "b"]),
    };
    let server = Server::of(&[words(&["a", "b"]), words(&["c"])]);
    assert_eq!(server.first(), first);
    assert_eq!(server.pages[1].previous_page_cursor, Some("c0".to_string()));
    assert_eq!(server.pages[1].next_page_cursor, None);

    let mut iterator = AsyncItemIterator::new(first.clone().timeline());
    assert_eq!(next(&mut iterator, &server), Ok("a".to_string()));
    assert_eq!(next(&mut iterator, &server), Ok("b".to_string()));
    assert_eq!(next(&mut iterator, &server), Ok("c".to_string()));
    assert_eq!(next(&mut iterator, &server), exhausted());

    let second = iterator.current();
    let request = second.backwards().unwrap();
    assert_eq!(request, point(&ENDPOINT.to_string(), &"c0".to_string()));
    let back = server.fetch(&request).unwrap();
    assert_eq!(back.data, words(&["a", "b"]));
    assert_eq!(back, first);
}
