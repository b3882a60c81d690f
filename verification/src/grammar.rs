//! The request line: its grammar, and what is read from a match.
//!
//! The grammar is a regular expression, and the `regex` crate matches it.
//! What the crate reports is then read by [`request_from_captures`], which
//! decides whether the line is a request that the server answers.

use vstd::prelude::*;
use vstd::string::*;
use regex::Regex;
use crate::error::{RequestFault, RequestFaultView};
use crate::method::HttpMethod;
use crate::request::{HttpRequest, HttpRequestView};
use crate::text::{contains_text, occurs_in};

verus! {

/// The grammar of a request line: a method token, a single space, a path
/// that starts with `/` and holds no whitespace, a single space, and a
/// protocol token of at least one character and without whitespace, which
/// ends the line. Nothing anchors the match at the start of the line.
pub const HTTP_REGEX_PATTERN: &'static str = r"(GET|POST|OPTION|PUT|DELETE) (\/[\S]*) ([\S]+)$";

/// The number of groups that a match of [`HTTP_REGEX_PATTERN`] reports: the
/// whole match, the method, the path and the protocol.
pub const GROUP_COUNT: usize = 4;

/// What a search for `pattern` in `haystack` reports: `None` where nothing
/// matches, or where `pattern` is no regular expression; otherwise the groups
/// of the first match, the whole match at index 0, each with the text that
/// it matched, or `None` where the group took no part in the match.
pub uninterp spec fn regex_captures(pattern: Seq<char>, haystack: Seq<char>) -> Option<
    Seq<Option<Seq<char>>>,
>;

/// Compiles `pattern` with `regex::Regex::new` and searches `haystack` with
/// `Regex::captures`; the groups are read off with `Captures::iter` and
/// `Match::as_str`. Not proved: that the groups handed back are the ones
/// named by [`regex_captures`], which says no more than that one pattern
/// and one haystack always give the same groups.
#[verifier::external_body]
fn search(pattern: &str, haystack: &str) -> (captures: Option<Vec<Option<String>>>)
    ensures
        captures.deep_view() == regex_captures(pattern@, haystack@),
{
    match Regex::new(pattern) {
        Ok(re) => re.captures(haystack).map(
            |found| found.iter().map(|group| group.map(|m| m.as_str().to_owned())).collect(),
        ),
        Err(_) => None,
    }
}

/// The request that the captures of a request line stand for, or the fault
/// that turns the line away. The checks come in this order: there is a match;
/// it has four groups; the method is `GET` or `POST`; the protocol holds
/// `HTTP`.
pub open spec fn read_captures(
    line: Seq<char>,
    captures: Option<Seq<Option<Seq<char>>>>,
) -> Result<HttpRequestView, RequestFaultView> {
    match captures {
        None => Err(RequestFaultView::NoMatch { line }),
        Some(groups) => {
            if groups.len() != GROUP_COUNT {
                Err(RequestFaultView::GroupCount { found: groups.len() })
            } else if groups[1] is None {
                Err(RequestFaultView::MissingGroup { index: 1 })
            } else if HttpMethod::of_token(groups[1]->0) is None {
                Err(RequestFaultView::Method { token: groups[1]->0 })
            } else if groups[2] is None {
                Err(RequestFaultView::MissingGroup { index: 2 })
            } else if groups[3] is None {
                Err(RequestFaultView::MissingGroup { index: 3 })
            } else if !occurs_in("HTTP"@, groups[3]->0) {
                Err(RequestFaultView::Protocol { token: groups[3]->0 })
            } else {
                Ok(HttpRequestView::of_line(HttpMethod::of_token(groups[1]->0)->0, groups[2]->0))
            }
        },
    }
}

/// The request that `line` stands for, or the fault that turns it away.
pub open spec fn read_line(line: Seq<char>) -> Result<HttpRequestView, RequestFaultView> {
    read_captures(line, regex_captures(HTTP_REGEX_PATTERN@, line))
}

/// Whether `result` holds the value `expected`.
pub open spec fn is_reading(
    result: Result<HttpRequest, RequestFault>,
    expected: Result<HttpRequestView, RequestFaultView>,
) -> bool {
    match result {
        Ok(request) => expected == Ok::<HttpRequestView, RequestFaultView>(request@),
        Err(fault) => expected == Err::<HttpRequestView, RequestFaultView>(fault@),
    }
}

/// Reads the request out of what the grammar captured in `line`.
pub fn request_from_captures(line: &str, captures: &Option<Vec<Option<String>>>) -> (result: Result<
    HttpRequest,
    RequestFault,
>)
    ensures
        is_reading(result, read_captures(line@, captures.deep_view())),
{
    let groups = match captures {
        Some(groups) => groups,
        None => {
            return Err(RequestFault::NoMatch { line: line.to_owned() });
        },
    };
    assert(captures.deep_view() == Some(groups.deep_view()));
    assert(groups.deep_view().len() == groups.len());
    if groups.len() != GROUP_COUNT {
        return Err(RequestFault::GroupCount { found: groups.len() });
    }
    assert(forall|i: int| 0 <= i < 4 ==> groups.deep_view()[i] == groups[i].deep_view());
    let token = match &groups[1] {
        Some(token) => token,
        None => {
            return Err(RequestFault::MissingGroup { index: 1 });
        },
    };
    let method = match HttpMethod::from_token(token.as_str()) {
        Some(method) => method,
        None => {
            return Err(RequestFault::Method { token: token.clone() });
        },
    };
    let path = match &groups[2] {
        Some(path) => path,
        None => {
            return Err(RequestFault::MissingGroup { index: 2 });
        },
    };
    let protocol = match &groups[3] {
        Some(protocol) => protocol,
        None => {
            return Err(RequestFault::MissingGroup { index: 3 });
        },
    };
    if !contains_text(protocol.as_str(), "HTTP") {
        return Err(RequestFault::Protocol { token: protocol.clone() });
    }
    Ok(HttpRequest::new(method, path.clone()))
}

/// Reads a request line.
pub fn parse_request_line(line: &str) -> (result: Result<HttpRequest, RequestFault>)
    ensures
        is_reading(result, read_line(line@)),
{
    let captures = search(HTTP_REGEX_PATTERN, line);
    request_from_captures(line, &captures)
}

} // verus!
