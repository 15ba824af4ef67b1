//! Navigation from one page to its neighbours.

use vstd::prelude::*;
use crate::error::CursorError;
use crate::page::PageCursor;
use crate::page::PageView;
use crate::request::page_request;
use crate::request::point;
use crate::request::Request;
use crate::request::RequestView;

verus! {

/// What `forward` decides for a page: the request for the page after it, or
/// `NoNextCursor` where the page names none.
pub open spec fn forward_request<D>(page: PageView<D>) -> Result<RequestView, CursorError> {
    match page.next {
        Some(cursor) => Ok(page_request(page.endpoint, cursor)),
        None => Err(CursorError::NoNextCursor),
    }
}

/// What `backwards` decides for a page: the request for the page before it, or
/// `NoPreviousCursor` where the page names none.
pub open spec fn backwards_request<D>(page: PageView<D>) -> Result<RequestView, CursorError> {
    match page.previous {
        Some(cursor) => Ok(page_request(page.endpoint, cursor)),
        None => Err(CursorError::NoPreviousCursor),
    }
}

/// A navigation decision as mathematical data.
pub open spec fn decision_view(decision: Result<Request, CursorError>) -> Result<
    RequestView,
    CursorError,
> {
    match decision {
        Ok(request) => Ok(request@),
        Err(e) => Err(e),
    }
}

/// A position in a paginated collection from which one can look at the page
/// held and ask what to fetch to reach a neighbour.
///
/// Navigation never changes the timeline: `forward` and `backwards` only say
/// which request leads to the neighbouring page. Whoever performs the request,
/// and awaits its answer, owns the page that comes back and continues from it
/// with a new timeline.
pub trait AsyncTimeline {
    type Output;

    /// The page that the timeline holds.
    spec fn snapshot(&self) -> Self::Output;

    /// Access to the page held.
    fn current(&mut self) -> (page: &mut Self::Output)
        ensures
            *page == old(self).snapshot(),
            final(self).snapshot() == *final(page),
    ;

    /// The request for the page after this one. Fails, before anything is
    /// fetched, only where there is no later page.
    fn forward(&self) -> (decision: Result<Request, CursorError>)
        ensures
            decision matches Err(e) ==> e == CursorError::NoNextCursor,
    ;

    /// The request for the page before this one. Fails, before anything is
    /// fetched, only where there is no earlier page.
    fn backwards(&self) -> (decision: Result<Request, CursorError>)
        ensures
            decision matches Err(e) ==> e == CursorError::NoPreviousCursor,
    ;
}

/// A timeline over cursor pages. It owns its page.
#[derive(Debug)]
pub struct CursorAsyncTimeline<T> {
    current: PageCursor<T>,
}

impl<T> View for CursorAsyncTimeline<T> {
    type V = PageView<T>;

    open spec fn view(&self) -> PageView<T> {
        self.snapshot()@
    }
}

impl<T> CursorAsyncTimeline<T> {
    pub(crate) fn holding(page: PageCursor<T>) -> (timeline: CursorAsyncTimeline<T>)
        ensures
            timeline.snapshot() == page,
    {
        CursorAsyncTimeline { current: page }
    }

    /// The page held, for reading.
    pub fn page(&self) -> (page: &PageCursor<T>)
        ensures
            *page == self.snapshot(),
    {
        &self.current
    }

    /// Gives the page back.
    pub fn into_page(self) -> (page: PageCursor<T>)
        ensures
            page == self.snapshot(),
    {
        self.current
    }
}

impl<T> AsyncTimeline for CursorAsyncTimeline<T> {
    type Output = PageCursor<T>;

    closed spec fn snapshot(&self) -> PageCursor<T> {
        self.current
    }

    fn current(&mut self) -> (page: &mut PageCursor<T>) {
        &mut self.current
    }

    fn forward(&self) -> (decision: Result<Request, CursorError>)
        ensures
            decision_view(decision) == forward_request(self@),
    {
        match &self.current.next_page_cursor {
            Some(cursor) => Ok(point(&self.current.base_url, cursor)),
            None => Err(CursorError::NoNextCursor),
        }
    }

    fn backwards(&self) -> (decision: Result<Request, CursorError>)
        ensures
            decision_view(decision) == backwards_request(self@),
    {
        match &self.current.previous_page_cursor {
            Some(cursor) => Ok(point(&self.current.base_url, cursor)),
            None => Err(CursorError::NoPreviousCursor),
        }
    }
}

} // verus!
