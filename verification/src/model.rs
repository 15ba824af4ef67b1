//! A paginated collection and its server as mathematical data, and what a
//! caller observes who performs every request that the library names.

use vstd::prelude::*;
use crate::error::CursorError;
use crate::error::TimelineError;
use crate::iterator::after_next_resumed;
use crate::iterator::after_next_step;
use crate::iterator::has_remaining_resumed;
use crate::iterator::has_remaining_step;
use crate::iterator::next_accepts;
use crate::iterator::next_resumed;
use crate::iterator::next_step;
use crate::iterator::ProbeView;
use crate::iterator::PullView;
use crate::page::PageView;
use crate::prefetch::prefetch_resumed;
use crate::prefetch::prefetch_round;
use crate::prefetch::prefetch_start;
use crate::prefetch::GatheredView;
use crate::prefetch::PrefetchStepView;
use crate::prefetch::PAGE_SIZE;
use crate::request::page_request;
use crate::request::RequestView;
use crate::timeline::backwards_request;
use crate::timeline::forward_request;

verus! {

/// A server of pages of items: what it answers to each request. Being a
/// function, it answers the same request in the same way every time.
pub type Source<T, E> = spec_fn(RequestView) -> Result<PageView<Seq<T>>, E>;

/// A collection as its server holds it: the items, split into pages, and for
/// each page the token by which that page is asked for.
pub struct Collection<T> {
    pub endpoint: Seq<char>,
    pub pages: Seq<Seq<T>>,
    pub tokens: Seq<Seq<char>>,
}

impl<T> Collection<T> {
    /// There is a first page, and every page has its token.
    pub open spec fn well_formed(self) -> bool {
        0 < self.pages.len() == self.tokens.len()
    }

    /// The page at position `i`, as the server hands it out: it names the page
    /// before it and the page after it, where there is one.
    pub open spec fn page(self, i: int) -> PageView<Seq<T>> {
        PageView {
            endpoint: self.endpoint,
            previous: if 0 < i {
                Some(self.tokens[i - 1])
            } else {
                None
            },
            next: if i + 1 < self.pages.len() {
                Some(self.tokens[i + 1])
            } else {
                None
            },
            data: self.pages[i],
        }
    }

    /// The items of the pages from position `from` up to, not including,
    /// position `to`, in order.
    pub open spec fn items_between(self, from: int, to: int) -> Seq<T>
        decreases to - from,
    {
        if 0 <= from < to <= self.pages.len() {
            self.pages[from] + self.items_between(from + 1, to)
        } else {
            Seq::empty()
        }
    }

    /// The items of the pages from position `from` on.
    pub open spec fn items_from(self, from: int) -> Seq<T> {
        self.items_between(from, self.pages.len() as int)
    }

    /// All the items, in the order of the server.
    pub open spec fn items(self) -> Seq<T> {
        self.items_from(0)
    }

    /// Every page after position `i` holds an item.
    pub open spec fn no_empty_page_after(self, i: int) -> bool {
        forall|j: int| i < j < self.pages.len() ==> (#[trigger] self.pages[j]).len() > 0
    }

    /// `held` is at position `i` where going forward is concerned: it belongs
    /// to this collection and names the same next page as the page at `i`.
    pub open spec fn holds_at(self, held: PageView<Seq<T>>, i: int) -> bool {
        &&& 0 <= i < self.pages.len()
        &&& held.endpoint == self.endpoint
        &&& held.next == self.page(i).next
    }
}

/// The source hands out the pages of the collection: asked for the token of
/// a page, it answers with that page.
pub open spec fn serves<T, E>(source: Source<T, E>, collection: Collection<T>) -> bool {
    forall|i: int|
        0 <= i < collection.pages.len() ==> source(
            page_request(collection.endpoint, #[trigger] collection.tokens[i]),
        ) == Ok::<PageView<Seq<T>>, E>(collection.page(i))
}

/// No two pages of the collection share a token.
pub open spec fn tokens_are_distinct<T>(collection: Collection<T>) -> bool {
    forall|i: int, j: int|
        0 <= i < collection.tokens.len() && 0 <= j < collection.tokens.len()
            && #[trigger] collection.tokens[i] == #[trigger] collection.tokens[j] ==> i == j
}

/// `request` asks for the page at position `i` of the collection.
pub open spec fn asks_for<T>(collection: Collection<T>, request: RequestView, i: int) -> bool {
    0 <= i < collection.pages.len() && request == page_request(
        collection.endpoint,
        collection.tokens[i],
    )
}

/// A server of the collection and of nothing else: asked for the token of a
/// page it answers with that page, and every other request fails.
pub open spec fn server_of<T, E>(collection: Collection<T>) -> Source<T, E> {
    |request: RequestView|
        if exists|i: int| asks_for(collection, request, i) {
            Ok(collection.page(choose|i: int| asks_for(collection, request, i)))
        } else {
            Err(arbitrary())
        }
}

/// What comes of a navigation decision when the request it names is performed.
pub open spec fn fetched_from<T, E>(
    decision: Result<RequestView, CursorError>,
    source: Source<T, E>,
) -> Result<PageView<Seq<T>>, TimelineError<E>> {
    match decision {
        Ok(request) => match source(request) {
            Ok(page) => Ok(page),
            Err(e) => Err(TimelineError::Fetch(e)),
        },
        Err(e) => Err(TimelineError::Cursor(e)),
    }
}

/// Going forward from a page: `forward`, and the fetch it asks for.
pub open spec fn forward_outcome<T, E>(page: PageView<Seq<T>>, source: Source<T, E>) -> Result<
    PageView<Seq<T>>,
    TimelineError<E>,
> {
    fetched_from(forward_request(page), source)
}

/// Going backwards from a page: `backwards`, and the fetch it asks for.
pub open spec fn backwards_outcome<T, E>(page: PageView<Seq<T>>, source: Source<T, E>) -> Result<
    PageView<Seq<T>>,
    TimelineError<E>,
> {
    fetched_from(backwards_request(page), source)
}

/// The fetch that `next` would ask for can be handed to `next_fetched`: if it
/// brings a page, the page holds an item.
pub open spec fn next_is_defined<T, E>(held: PageView<Seq<T>>, source: Source<T, E>) -> bool {
    next_step(held) matches Ok(PullView::Fetch(request)) ==> next_accepts(source(request))
}

/// One whole `next`: the first phase, and `next_fetched` on the outcome of the
/// fetch where the first phase asked for one.
pub open spec fn next_outcome<T, E>(held: PageView<Seq<T>>, source: Source<T, E>) -> Result<
    T,
    TimelineError<E>,
> {
    match next_step(held) {
        Ok(PullView::Item(item)) => Ok(item),
        Ok(PullView::Fetch(request)) => next_resumed(source(request)),
        Err(e) => Err(TimelineError::Cursor(e)),
    }
}

/// The page held after one whole `next`.
pub open spec fn after_next<T, E>(held: PageView<Seq<T>>, source: Source<T, E>) -> PageView<
    Seq<T>,
> {
    match next_step(held) {
        Ok(PullView::Fetch(request)) => after_next_resumed(
            after_next_step(held),
            source(request),
        ),
        _ => after_next_step(held),
    }
}

/// The page held after `n` whole calls of `next`.
pub open spec fn after_nexts<T, E>(held: PageView<Seq<T>>, source: Source<T, E>, n: nat) -> PageView<
    Seq<T>,
>
    decreases n,
{
    if n == 0 {
        held
    } else {
        after_nexts(after_next(held, source), source, (n - 1) as nat)
    }
}

/// What the call of `next` answers that follows `n` earlier calls.
pub open spec fn nth_next<T, E>(held: PageView<Seq<T>>, source: Source<T, E>, n: nat) -> Result<
    T,
    TimelineError<E>,
> {
    next_outcome(after_nexts(held, source, n), source)
}

/// One whole `has_remaining`: the first phase, and `has_remaining_fetched` on
/// the outcome of the fetch where the first phase asked for one.
pub open spec fn has_remaining_outcome<T, E>(held: PageView<Seq<T>>, source: Source<T, E>) -> bool {
    match has_remaining_step(held) {
        ProbeView::Known(answer) => answer,
        ProbeView::Fetch(request) => has_remaining_resumed(source(request)),
    }
}

/// A prefetch played to its end from `step`: the page that the iterator is
/// left with, and what was gathered.
pub open spec fn prefetch_end<T, E>(step: PrefetchStepView<T>, source: Source<T, E>) -> (
    PageView<Seq<T>>,
    GatheredView,
)
    decreases
        (match step {
            PrefetchStepView::Done(_, _) => 0nat,
            PrefetchStepView::Fetch(_, prefetch) => if prefetch.filled < prefetch.capacity {
                (prefetch.capacity - prefetch.filled + 1) as nat
            } else {
                1nat
            },
        }),
{
    match step {
        PrefetchStepView::Done(page, gathered) => (page, gathered),
        PrefetchStepView::Fetch(request, prefetch) => prefetch_end(
            prefetch_resumed(prefetch, source(request)),
            source,
        ),
    }
}

/// The number of rounds that a capacity pays for: one for each `PAGE_SIZE`
/// begun.
pub open spec fn rounds_for(capacity: nat) -> nat {
    ((capacity + PAGE_SIZE - 1) / (PAGE_SIZE as int)) as nat
}

/// One whole `with_capacity`: its first step, and `resume` on the outcome of
/// each fetch asked for, until the prefetch is over.
pub open spec fn with_capacity_outcome<T, E>(
    page: PageView<Seq<T>>,
    capacity: nat,
    source: Source<T, E>,
) -> (PageView<Seq<T>>, GatheredView) {
    prefetch_end(prefetch_round(prefetch_start(page, capacity)), source)
}

} // verus!
