//! Filling an iterator ahead of its use.

use vstd::prelude::*;
use crate::iterator::fetched_view;
use crate::iterator::AsyncItemIterator;
use crate::page::PageCursor;
use crate::page::PageView;
use crate::request::Request;
use crate::request::RequestView;
use crate::timeline::forward_request;
use crate::timeline::AsyncTimeline;
use crate::timeline::CursorAsyncTimeline;

verus! {

/// The most items that the server puts on one page. Each page gathered fills
/// this much of the capacity asked for, however many items it holds.
pub const PAGE_SIZE: u32 = 100;

/// A prefetch that waits for a page: the items gathered so far, the page they
/// were last taken from, the capacity asked for and how much of it is filled.
#[derive(Debug)]
pub struct Prefetch<T> {
    buffer: Vec<T>,
    timeline: CursorAsyncTimeline<Vec<T>>,
    capacity: u32,
    filled: u32,
}

/// A [`Prefetch`] as mathematical data.
pub struct PrefetchView<T> {
    pub buffered: Seq<T>,
    pub page: PageView<Seq<T>>,
    pub capacity: nat,
    pub filled: nat,
}

/// What a prefetch took in.
#[derive(Clone, Copy, Debug, PartialEq, Eq, Structural)]
pub struct Gathered {
    /// The number of items gathered ahead of the page that the prefetch was
    /// left on.
    pub items: usize,
    /// How much of the capacity asked for was filled: `PAGE_SIZE` for each
    /// page gathered, and never more than was asked for.
    pub filled: u32,
}

/// A [`Gathered`] as mathematical data.
pub struct GatheredView {
    pub items: nat,
    pub filled: nat,
}

impl View for Gathered {
    type V = GatheredView;

    open spec fn view(&self) -> GatheredView {
        GatheredView { items: self.items as nat, filled: self.filled as nat }
    }
}

/// Where a prefetch stands after a step.
#[derive(Debug)]
pub enum PrefetchStep<T> {
    /// The prefetch is over: the iterator, and what was gathered.
    Done(AsyncItemIterator<T>, Gathered),
    /// Perform the request and hand its outcome to `resume`.
    Fetch(Request, Prefetch<T>),
}

/// A [`PrefetchStep`] as mathematical data.
pub enum PrefetchStepView<T> {
    Done(PageView<Seq<T>>, GatheredView),
    Fetch(RequestView, PrefetchView<T>),
}

impl<T> View for Prefetch<T> {
    type V = PrefetchView<T>;

    closed spec fn view(&self) -> PrefetchView<T> {
        PrefetchView {
            buffered: self.buffer@,
            page: self.timeline.snapshot().listing(),
            capacity: self.capacity as nat,
            filled: self.filled as nat,
        }
    }
}

impl<T> View for PrefetchStep<T> {
    type V = PrefetchStepView<T>;

    open spec fn view(&self) -> PrefetchStepView<T> {
        match self {
            PrefetchStep::Done(iterator, gathered) => PrefetchStepView::Done(
                iterator@,
                gathered@,
            ),
            PrefetchStep::Fetch(request, prefetch) => PrefetchStepView::Fetch(
                request@,
                prefetch@,
            ),
        }
    }
}

/// A prefetch that has gathered nothing yet.
pub open spec fn prefetch_start<T>(page: PageView<Seq<T>>, capacity: nat) -> PrefetchView<T> {
    PrefetchView { buffered: Seq::empty(), page, capacity, filled: 0 }
}

/// The capacity filled after one more page: a page fills `PAGE_SIZE` of it, or
/// what is left of it if that is less.
pub open spec fn filled_after_page(capacity: nat, filled: nat) -> nat {
    if capacity - filled > PAGE_SIZE {
        (filled + PAGE_SIZE) as nat
    } else {
        capacity
    }
}

/// The prefetch after the items of its page have been gathered.
pub open spec fn after_gathering<T>(prefetch: PrefetchView<T>) -> PrefetchView<T> {
    PrefetchView {
        buffered: prefetch.buffered + prefetch.page.data,
        page: prefetch.page.with_data(Seq::empty()),
        capacity: prefetch.capacity,
        filled: filled_after_page(prefetch.capacity, prefetch.filled),
    }
}

/// The end of a prefetch: one page that has the cursors of the page the
/// prefetch was left on and holds the items gathered, followed by that page's
/// own items.
pub open spec fn prefetch_done<T>(prefetch: PrefetchView<T>) -> PrefetchStepView<T> {
    PrefetchStepView::Done(
        prefetch.page.with_data(prefetch.buffered + prefetch.page.data),
        GatheredView { items: prefetch.buffered.len(), filled: prefetch.filled },
    )
}

/// One round of a prefetch. With the capacity filled it is over. Otherwise the
/// items of its page are gathered, whole, and the next page is asked for; where
/// the page names no next page the prefetch is over as well.
pub open spec fn prefetch_round<T>(prefetch: PrefetchView<T>) -> PrefetchStepView<T> {
    if prefetch.filled >= prefetch.capacity {
        prefetch_done(prefetch)
    } else {
        match forward_request(prefetch.page) {
            Ok(request) => PrefetchStepView::Fetch(request, after_gathering(prefetch)),
            Err(_) => prefetch_done(after_gathering(prefetch)),
        }
    }
}

/// How a prefetch goes on with the outcome of a fetch: from the page that came
/// back; a failed fetch ends it with what it has.
pub open spec fn prefetch_resumed<T, E>(
    prefetch: PrefetchView<T>,
    fetched: Result<PageView<Seq<T>>, E>,
) -> PrefetchStepView<T> {
    match fetched {
        Ok(page) => prefetch_round(
            PrefetchView {
                buffered: prefetch.buffered,
                page,
                capacity: prefetch.capacity,
                filled: prefetch.filled,
            },
        ),
        Err(_) => prefetch_done(prefetch),
    }
}

impl<T> Prefetch<T> {
    pub(crate) fn start(page: PageCursor<Vec<T>>, capacity: u32) -> (step: PrefetchStep<T>)
        ensures
            step@ == prefetch_round(prefetch_start(page.listing(), capacity as nat)),
    {
        let prefetch = Prefetch {
            buffer: Vec::new(),
            timeline: page.timeline(),
            capacity,
            filled: 0,
        };
        prefetch.round()
    }

    fn round(self) -> (step: PrefetchStep<T>)
        ensures
            step@ == prefetch_round(self@),
    {
        if self.filled >= self.capacity {
            return self.done();
        }
        let mut prefetch = self;
        if prefetch.capacity - prefetch.filled > PAGE_SIZE {
            prefetch.filled = prefetch.filled + PAGE_SIZE;
        } else {
            prefetch.filled = prefetch.capacity;
        }
        prefetch.buffer.append(&mut prefetch.timeline.current().data);
        match prefetch.timeline.forward() {
            Ok(request) => PrefetchStep::Fetch(request, prefetch),
            Err(_) => prefetch.done(),
        }
    }

    fn done(self) -> (step: PrefetchStep<T>)
        ensures
            step@ == prefetch_done(self@),
    {
        let gathered = Gathered { items: self.buffer.len(), filled: self.filled };
        let mut items = self.buffer;
        let mut page = self.timeline.into_page();
        items.append(&mut page.data);
        page.data = items;
        PrefetchStep::Done(AsyncItemIterator::new(page.timeline()), gathered)
    }

    /// Goes on with the outcome of the fetch that the prefetch asked for.
    ///
    /// A page that came back becomes the page to gather from, and the next
    /// round is played. A failed fetch is not reported: the collection counts as
    /// exhausted, and the prefetch ends with what it has gathered.
    pub fn resume<E>(self, fetched: Result<PageCursor<Vec<T>>, E>) -> (step: PrefetchStep<T>)
        ensures
            step@ == prefetch_resumed(self@, fetched_view(fetched)),
    {
        match fetched {
            Ok(page) => {
                let prefetch = Prefetch {
                    buffer: self.buffer,
                    timeline: page.timeline(),
                    capacity: self.capacity,
                    filled: self.filled,
                };
                prefetch.round()
            },
            Err(_) => self.done(),
        }
    }
}

} // verus!
