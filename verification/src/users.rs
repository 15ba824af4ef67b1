//! The users endpoints: the records they serve and the requests that reach them.

use vstd::prelude::*;
use vstd::string::*;
use crate::request::Request;
use crate::request::RequestView;

verus! {

/// A user as a search lists it.
#[derive(Debug, Clone, PartialEq, Eq)]
pub struct UserQuery {
    pub id: u64,
    pub name: String,
    pub display_name: String,
}

/// A user as a lookup by id describes it.
#[derive(Debug, Clone, PartialEq, Eq)]
pub struct User {
    /// What the user wrote about themselves.
    pub description: String,
    /// The instant at which the account was created, in ISO 8601.
    pub created: String,
    pub is_banned: bool,
    pub id: u64,
    pub name: String,
    pub display_name: String,
}

/// The address of the users service.
pub const BASE_URL: &'static str = "https://users.roblox.com";

/// The character of a decimal digit.
pub open spec fn digit(d: nat) -> char {
    if d == 0 {
        '0'
    } else if d == 1 {
        '1'
    } else if d == 2 {
        '2'
    } else if d == 3 {
        '3'
    } else if d == 4 {
        '4'
    } else if d == 5 {
        '5'
    } else if d == 6 {
        '6'
    } else if d == 7 {
        '7'
    } else if d == 8 {
        '8'
    } else {
        '9'
    }
}

/// A number in decimal notation, without leading zeros.
pub open spec fn decimal(n: nat) -> Seq<char>
    decreases n,
{
    if n < 10 {
        seq![digit(n)]
    } else {
        decimal(n / 10).push(digit(n % 10))
    }
}

/// The request that searches the users by keyword: the search address with
/// `limit=100` and `keyword=<keyword>`, in that order.
pub open spec fn search_request(keyword: Seq<char>) -> RequestView {
    RequestView {
        url: BASE_URL@ + "/v1/users/search"@,
        query: seq![("limit"@, "100"@), ("keyword"@, keyword)],
    }
}

/// The request that looks one user up: the users address followed by the id in
/// decimal, with no query.
pub open spec fn get_request(id: u64) -> RequestView {
    RequestView { url: BASE_URL@ + "/v1/users/"@ + decimal(id as nat), query: Seq::empty() }
}

fn digit_text(d: u64) -> (text: &'static str)
    requires
        d < 10,
    ensures
        text@ == seq![digit(d as nat)],
{
    proof {
        reveal_strlit("0");
        reveal_strlit("1");
        reveal_strlit("2");
        reveal_strlit("3");
        reveal_strlit("4");
        reveal_strlit("5");
        reveal_strlit("6");
        reveal_strlit("7");
        reveal_strlit("8");
        reveal_strlit("9");
    }
    let text = if d == 0 {
        "0"
    } else if d == 1 {
        "1"
    } else if d == 2 {
        "2"
    } else if d == 3 {
        "3"
    } else if d == 4 {
        "4"
    } else if d == 5 {
        "5"
    } else if d == 6 {
        "6"
    } else if d == 7 {
        "7"
    } else if d == 8 {
        "8"
    } else {
        "9"
    };
    assert(text@ =~= seq![digit(d as nat)]);
    text
}

/// Writes a number in decimal notation.
pub fn decimal_string(n: u64) -> (text: String)
    ensures
        text@ == decimal(n as nat),
    decreases n,
{
    if n < 10 {
        String::from_str(digit_text(n))
    } else {
        let mut text = decimal_string(n / 10);
        text.append(digit_text(n % 10));
        text
    }
}

/// The request whose answer is the first page of the users that match
/// `keyword`.
pub fn search(keyword: String) -> (request: Request)
    ensures
        request@ == search_request(keyword@),
{
    let mut query: Vec<(String, String)> = Vec::new();
    query.push((String::from_str("limit"), String::from_str("100")));
    query.push((String::from_str("keyword"), keyword));
    let request = Request { url: String::from_str(BASE_URL).concat("/v1/users/search"), query };
    assert(request@.query =~= search_request(keyword@).query);
    request
}

/// The request whose answer describes the user with this id.
pub fn get(id: u64) -> (request: Request)
    ensures
        request@ == get_request(id),
{
    let mut url = String::from_str(BASE_URL).concat("/v1/users/");
    let number = decimal_string(id);
    url.append(number.as_str());
    let request = Request { url, query: Vec::new() };
    assert(request@.query =~= get_request(id).query);
    request
}

} // verus!
