//! The request methods that the server answers.

use vstd::prelude::*;
use vstd::string::*;
use crate::text::same_text;

verus! {

/// A request method. The request-line grammar knows more method tokens than
/// these two; the others are turned away when the token is read.
#[derive(Clone, Copy, Debug, PartialEq, Eq, Structural)]
pub enum HttpMethod {
    GET,
    POST,
}

impl HttpMethod {
    /// The token that names this method on the wire.
    pub open spec fn token(self) -> Seq<char> {
        match self {
            HttpMethod::GET => "GET"@,
            HttpMethod::POST => "POST"@,
        }
    }

    /// The method named by `token`: an exact, case-sensitive match.
    pub open spec fn of_token(token: Seq<char>) -> Option<HttpMethod> {
        if token == "GET"@ {
            Some(HttpMethod::GET)
        } else if token == "POST"@ {
            Some(HttpMethod::POST)
        } else {
            None
        }
    }

    /// The method's name between square brackets, as it is shown in logs.
    pub open spec fn label(self) -> Seq<char> {
        "["@ + self.token() + "]"@
    }

    /// Reads a method token.
    pub fn from_token(token: &str) -> (method: Option<HttpMethod>)
        ensures
            method == Self::of_token(token@),
    {
        if same_text(token, "GET") {
            Some(HttpMethod::GET)
        } else if same_text(token, "POST") {
            Some(HttpMethod::POST)
        } else {
            None
        }
    }

    /// Renders the method for display: `[GET]` or `[POST]`.
    pub fn to_string(&self) -> (s: String)
        ensures
            s@ == self.label(),
    {
        let mut s = String::from_str("[");
        match self {
            HttpMethod::GET => s.append("GET"),
            HttpMethod::POST => s.append("POST"),
        }
        s.append("]");
        s
    }
}

} // verus!
