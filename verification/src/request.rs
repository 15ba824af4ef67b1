//! What the caller is asked to fetch: an HTTP GET, written down as plain values.

use vstd::prelude::*;
use vstd::string::*;

verus! {

/// An HTTP GET that the caller is to perform: the address, and the query
/// parameters to append to it, in order.
#[derive(Debug, Clone, PartialEq, Eq)]
pub struct Request {
    pub url: String,
    pub query: Vec<(String, String)>,
}

/// A [`Request`] as mathematical data.
pub struct RequestView {
    pub url: Seq<char>,
    pub query: Seq<(Seq<char>, Seq<char>)>,
}

impl View for Request {
    type V = RequestView;

    open spec fn view(&self) -> RequestView {
        RequestView {
            url: self.url@,
            query: Seq::new(self.query@.len(), |i: int| (self.query@[i].0@, self.query@[i].1@)),
        }
    }
}

/// The request for the page of `endpoint` that `cursor` identifies: the
/// endpoint itself with `limit=100` and `cursor=<token>`, in that order.
pub open spec fn page_request(endpoint: Seq<char>, cursor: Seq<char>) -> RequestView {
    RequestView { url: endpoint, query: seq![("limit"@, "100"@), ("cursor"@, cursor)] }
}

/// Points at a cursor of an endpoint: builds the request whose answer is the
/// page that the cursor identifies. The token is forwarded as it is.
pub fn point(base_url: &String, cursor_id: &String) -> (request: Request)
    ensures
        request@ == page_request(base_url@, cursor_id@),
{
    let mut query: Vec<(String, String)> = Vec::new();
    query.push((String::from_str("limit"), String::from_str("100")));
    query.push((String::from_str("cursor"), cursor_id.clone()));
    let request = Request { url: base_url.clone(), query };
    assert(request@.query =~= page_request(base_url@, cursor_id@).query);
    request
}

} // verus!
