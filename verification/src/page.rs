//! One fetched page of a collection, with the tokens that lead to its neighbours.

use vstd::prelude::*;
use crate::timeline::AsyncTimeline;
use crate::timeline::CursorAsyncTimeline;

verus! {

/// A page of results: the payload, the address of the collection it came from,
/// and the opaque tokens of the pages before and after it. An absent token means
/// that no page exists in that direction.
///
/// A page is a value: moving through a collection produces new pages and never
/// changes one in place.
#[derive(Debug, Clone, PartialEq, Eq)]
pub struct PageCursor<T> {
    pub base_url: String,
    pub previous_page_cursor: Option<String>,
    pub next_page_cursor: Option<String>,
    pub data: T,
}

/// A page as mathematical data. `D` is the payload as the contracts see it.
pub struct PageView<D> {
    pub endpoint: Seq<char>,
    pub previous: Option<Seq<char>>,
    pub next: Option<Seq<char>>,
    pub data: D,
}

/// The characters of a token, where there is one.
pub open spec fn token_view(token: Option<String>) -> Option<Seq<char>> {
    match token {
        Some(t) => Some(t@),
        None => None,
    }
}

impl<D> PageView<D> {
    /// The same page with another payload.
    pub open spec fn with_data<D2>(self, data: D2) -> PageView<D2> {
        PageView { endpoint: self.endpoint, previous: self.previous, next: self.next, data }
    }

    /// The same page, found at another address.
    pub open spec fn at(self, endpoint: Seq<char>) -> PageView<D> {
        PageView { endpoint, previous: self.previous, next: self.next, data: self.data }
    }
}

impl<T> View for PageCursor<T> {
    type V = PageView<T>;

    open spec fn view(&self) -> PageView<T> {
        PageView {
            endpoint: self.base_url@,
            previous: token_view(self.previous_page_cursor),
            next: token_view(self.next_page_cursor),
            data: self.data,
        }
    }
}

impl<T> PageCursor<T> {
    /// Records the address that the page was actually served from, which is the
    /// one that navigation from this page will use.
    pub fn stamp(self, endpoint: String) -> (page: PageCursor<T>)
        ensures
            page@ == self@.at(endpoint@),
    {
        PageCursor {
            base_url: endpoint,
            previous_page_cursor: self.previous_page_cursor,
            next_page_cursor: self.next_page_cursor,
            data: self.data,
        }
    }

    /// Turns the page into a timeline that owns it.
    pub fn timeline(self) -> (timeline: CursorAsyncTimeline<T>)
        ensures
            timeline.snapshot() == self,
    {
        CursorAsyncTimeline::holding(self)
    }
}

impl<T> PageCursor<Vec<T>> {
    /// A page of items, with the items as a sequence.
    pub open spec fn listing(&self) -> PageView<Seq<T>> {
        self@.with_data(self.data@)
    }
}

} // verus!
