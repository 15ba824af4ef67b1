//! Client-side traversal of cursor-paginated HTTP collections.
//!
//! The library decides; its caller performs the HTTP round-trips. Every operation
//! that may need a neighbouring page is therefore split in two: a first function
//! that either answers locally or names the [`Request`] to issue, and a second one
//! that takes whatever the fetch produced and finishes the operation.
//!
//! A [`PageCursor`] is one page with the tokens of its neighbours, a
//! [`CursorAsyncTimeline`] navigates from a page it owns, and an
//! [`AsyncItemIterator`] hands out the items of page after page. The module
//! `model` describes a collection and its server as mathematical data, and the
//! module `laws` proves what a caller observes who performs every request.

pub mod error;
pub mod iterator;
pub mod laws;
pub mod model;
pub mod page;
pub mod prefetch;
pub mod request;
pub mod timeline;
pub mod users;

pub use error::CursorError;
pub use error::TimelineError;
pub use iterator::AsyncItemIterator;
pub use iterator::Probe;
pub use iterator::Pull;
pub use page::PageCursor;
pub use page::PageView;
pub use prefetch::Gathered;
pub use prefetch::Prefetch;
pub use prefetch::PrefetchStep;
pub use prefetch::PAGE_SIZE;
pub use request::point;
pub use request::Request;
pub use request::RequestView;
pub use timeline::AsyncTimeline;
pub use timeline::CursorAsyncTimeline;
