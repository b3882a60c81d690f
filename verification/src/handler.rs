//! Handlers: what answers the requests for one path.
//!
//! A handler is any function from a request to a [`HandlerResult`]. It
//! renders its payload itself; the server puts the rendering into the
//! response as it is.

use vstd::prelude::*;
use vstd::string::*;
use crate::request::HttpRequest;

verus! {

/// What a handler returns: the rendering of its payload, or the message of
/// its failure.
pub type HandlerResult = Result<String, String>;

/// A handler given as a plain function.
pub type HandlerFunc = fn(HttpRequest) -> HandlerResult;

/// The mathematical value of a [`HandlerResult`].
pub open spec fn outcome_view(outcome: HandlerResult) -> Result<Seq<char>, Seq<char>> {
    match outcome {
        Ok(payload) => Ok(payload@),
        Err(message) => Err(message@),
    }
}

/// Handler for /ping
pub fn handle_ping(req: HttpRequest) -> (result: HandlerResult)
    ensures
        result matches Ok(payload) && payload@ == "pong"@,
{
    Ok(String::from_str("pong"))
}

} // verus!
