//! Item-by-item consumption of a paginated collection.

use vstd::prelude::*;
use crate::error::CursorError;
use crate::error::TimelineError;
use crate::page::PageCursor;
use crate::page::PageView;
use crate::prefetch::prefetch_round;
use crate::prefetch::prefetch_start;
use crate::prefetch::Prefetch;
use crate::prefetch::PrefetchStep;
use crate::request::Request;
use crate::request::RequestView;
use crate::timeline::forward_request;
use crate::timeline::AsyncTimeline;
use crate::timeline::CursorAsyncTimeline;

verus! {

/// What `next` found without fetching anything.
#[derive(Clone, Debug, PartialEq, Eq)]
pub enum Pull<T> {
    /// The page held had an item left: here it is.
    Item(T),
    /// The page held is used up. Perform the request and hand its outcome to
    /// `next_fetched`.
    Fetch(Request),
}

/// A [`Pull`] as mathematical data.
pub enum PullView<T> {
    Item(T),
    Fetch(RequestView),
}

impl<T> View for Pull<T> {
    type V = PullView<T>;

    open spec fn view(&self) -> PullView<T> {
        match self {
            Pull::Item(item) => PullView::Item(*item),
            Pull::Fetch(request) => PullView::Fetch(request@),
        }
    }
}

/// What `has_remaining` found without fetching anything.
#[derive(Clone, Debug, PartialEq, Eq)]
pub enum Probe {
    /// The answer is known locally.
    Known(bool),
    /// The page held is used up and names a later page. Perform the request and
    /// hand its outcome to `has_remaining_fetched`.
    Fetch(Request),
}

/// A [`Probe`] as mathematical data.
pub enum ProbeView {
    Known(bool),
    Fetch(RequestView),
}

impl View for Probe {
    type V = ProbeView;

    open spec fn view(&self) -> ProbeView {
        match self {
            Probe::Known(answer) => ProbeView::Known(*answer),
            Probe::Fetch(request) => ProbeView::Fetch(request@),
        }
    }
}

/// The outcome of a fetch of a page of items, as mathematical data.
pub open spec fn fetched_view<T, E>(fetched: Result<PageCursor<Vec<T>>, E>) -> Result<
    PageView<Seq<T>>,
    E,
> {
    match fetched {
        Ok(page) => Ok(page.listing()),
        Err(e) => Err(e),
    }
}

/// The first phase of `next` as mathematical data.
pub open spec fn pull_view<T>(step: Result<Pull<T>, CursorError>) -> Result<
    PullView<T>,
    CursorError,
> {
    match step {
        Ok(pull) => Ok(pull@),
        Err(e) => Err(e),
    }
}

/// The page without its first item.
pub open spec fn without_first<T>(page: PageView<Seq<T>>) -> PageView<Seq<T>> {
    page.with_data(page.data.drop_first())
}

/// What `next` answers for the page held: its first item while it has one;
/// otherwise the request for the next page, or `NoNextCursor` where the page
/// names no next page.
pub open spec fn next_step<T>(page: PageView<Seq<T>>) -> Result<PullView<T>, CursorError> {
    if page.data.len() > 0 {
        Ok(PullView::Item(page.data[0]))
    } else {
        match forward_request(page) {
            Ok(request) => Ok(PullView::Fetch(request)),
            Err(e) => Err(e),
        }
    }
}

/// The page held after `next`: one item shorter where an item was handed out,
/// unchanged otherwise.
pub open spec fn after_next_step<T>(page: PageView<Seq<T>>) -> PageView<Seq<T>> {
    if page.data.len() > 0 {
        without_first(page)
    } else {
        page
    }
}

/// What `next_fetched` asks of the outcome of the fetch: a page that came back
/// holds an item.
pub open spec fn next_accepts<T, E>(fetched: Result<PageView<Seq<T>>, E>) -> bool {
    fetched matches Ok(page) ==> page.data.len() > 0
}

/// What `next_fetched` answers for the outcome of the fetch: the first item of
/// the page that came back, or the failure of the fetch.
pub open spec fn next_resumed<T, E>(fetched: Result<PageView<Seq<T>>, E>) -> Result<
    T,
    TimelineError<E>,
> {
    match fetched {
        Ok(page) => Ok(page.data[0]),
        Err(e) => Err(TimelineError::Fetch(e)),
    }
}

/// The page held after `next_fetched`: the page that came back, without its
/// first item; after a failed fetch, the page held before.
pub open spec fn after_next_resumed<T, E>(
    held: PageView<Seq<T>>,
    fetched: Result<PageView<Seq<T>>, E>,
) -> PageView<Seq<T>> {
    match fetched {
        Ok(page) => without_first(page),
        Err(_) => held,
    }
}

/// What `has_remaining` answers for the page held: `true` while it has an item;
/// otherwise the request for the next page, or `false` where the page names no
/// next page.
pub open spec fn has_remaining_step<T>(page: PageView<Seq<T>>) -> ProbeView {
    if page.data.len() > 0 {
        ProbeView::Known(true)
    } else {
        match forward_request(page) {
            Ok(request) => ProbeView::Fetch(request),
            Err(_) => ProbeView::Known(false),
        }
    }
}

/// What `has_remaining_fetched` answers for the outcome of the fetch: whether a
/// page came back and holds an item.
pub open spec fn has_remaining_resumed<T, E>(fetched: Result<PageView<Seq<T>>, E>) -> bool {
    fetched matches Ok(page) && page.data.len() > 0
}

/// Hands out the items of a collection one by one, in the order of the server,
/// page after page.
///
/// The iterator holds one timeline. While its page has items, `next` hands out
/// the first of them. When the page is used up, `next` names the request for the
/// next page, and `next_fetched` continues with the page that came back, which
/// replaces the one held.
#[derive(Debug)]
pub struct AsyncItemIterator<T> {
    timeline: CursorAsyncTimeline<Vec<T>>,
}

impl<T> View for AsyncItemIterator<T> {
    type V = PageView<Seq<T>>;

    closed spec fn view(&self) -> PageView<Seq<T>> {
        self.timeline.snapshot().listing()
    }
}

impl<T> AsyncItemIterator<T> {
    /// Gives up the iterator for the timeline it holds.
    pub fn current(self) -> (timeline: CursorAsyncTimeline<Vec<T>>)
        ensures
            timeline.snapshot().listing() == self@,
    {
        self.timeline
    }

    /// An iterator that starts with the items of the timeline's page.
    pub fn new(timeline: CursorAsyncTimeline<Vec<T>>) -> (iterator: AsyncItemIterator<T>)
        ensures
            iterator@ == timeline.snapshot().listing(),
    {
        AsyncItemIterator { timeline }
    }

    /// An iterator over the collection from `cursor` on that has gathered items
    /// ahead: pages are taken in, one round per `PAGE_SIZE` of `capacity`, until
    /// the capacity is used up or no further page can be had.
    ///
    /// The answer is the first step of that prefetch; `Prefetch::resume` plays
    /// the others. At its end stands an iterator over one page that holds all
    /// the items gathered, in their order, followed by those of the page that
    /// the prefetch was left on.
    pub fn with_capacity(cursor: PageCursor<Vec<T>>, capacity: u32) -> (step: PrefetchStep<T>)
        ensures
            step@ == prefetch_round(prefetch_start(cursor.listing(), capacity as nat)),
    {
        Prefetch::start(cursor, capacity)
    }

    /// The next item, or what to fetch to get it.
    ///
    /// While the page held has an item, its first item is removed and returned
    /// and nothing needs fetching. Once the page is used up, the answer is the
    /// request for the next page, and the iterator stays as it is; where the page
    /// names no next page the collection is exhausted, and every further call
    /// fails in the same way.
    pub fn next(&mut self) -> (step: Result<Pull<T>, CursorError>)
        ensures
            pull_view(step) == next_step(old(self)@),
            final(self)@ == after_next_step(old(self)@),
    {
        let page = self.timeline.current();
        if page.data.is_empty() {
            match self.timeline.forward() {
                Ok(request) => Ok(Pull::Fetch(request)),
                Err(e) => Err(e),
            }
        } else {
            Ok(Pull::Item(page.data.remove(0)))
        }
    }

    /// Finishes a `next` that asked for a fetch.
    ///
    /// A page that came back replaces the page held, and its first item is
    /// removed and returned. A failed fetch is handed back unchanged, and the
    /// iterator stays as it is, so that the call can be tried again.
    ///
    /// A page that came back must hold an item. `next_fetched_checked` makes
    /// that test for a caller that has not made it.
    pub fn next_fetched<E>(&mut self, fetched: Result<PageCursor<Vec<T>>, E>) -> (item: Result<
        T,
        TimelineError<E>,
    >)
        requires
            next_accepts(fetched_view(fetched)),
        ensures
            item == next_resumed(fetched_view(fetched)),
            final(self)@ == after_next_resumed(old(self)@, fetched_view(fetched)),
    {
        match fetched {
            Ok(page) => {
                self.timeline = page.timeline();
                Ok(self.timeline.current().data.remove(0))
            },
            Err(e) => Err(TimelineError::Fetch(e)),
        }
    }

    /// As `next_fetched`, after a look at what came back: a page without an
    /// item is refused with `None`, and the iterator stays as it is.
    pub fn next_fetched_checked<E>(&mut self, fetched: Result<PageCursor<Vec<T>>, E>) -> (item:
        Option<Result<T, TimelineError<E>>>)
        ensures
            next_accepts(fetched_view(fetched)) ==> item == Some(
                next_resumed(fetched_view(fetched)),
            ) && final(self)@ == after_next_resumed(old(self)@, fetched_view(fetched)),
            !next_accepts(fetched_view(fetched)) ==> item is None && final(self)@ == old(self)@,
    {
        let accepted = match &fetched {
            Ok(page) => !page.data.is_empty(),
            Err(_) => true,
        };
        if accepted {
            Some(self.next_fetched(fetched))
        } else {
            None
        }
    }

    /// Whether an item is left, or what to fetch to find out.
    ///
    /// The iterator is not changed, whatever the answer.
    pub fn has_remaining(&self) -> (probe: Probe)
        ensures
            probe@ == has_remaining_step(self@),
    {
        if !self.timeline.page().data.is_empty() {
            return Probe::Known(true);
        }
        match self.timeline.forward() {
            Ok(request) => Probe::Fetch(request),
            Err(_) => Probe::Known(false),
        }
    }

    /// Finishes a `has_remaining` that asked for a fetch: an item is left where
    /// a page came back and is not empty. Any failure of the fetch counts as
    /// nothing left. The page that came back is only looked at: the iterator
    /// does not take it.
    pub fn has_remaining_fetched<E>(&self, fetched: &Result<PageCursor<Vec<T>>, E>) -> (answer:
        bool)
        ensures
            answer == has_remaining_resumed(fetched_view(*fetched)),
    {
        match fetched {
            Ok(page) => !page.data.is_empty(),
            Err(_) => false,
        }
    }
}

} // verus!
