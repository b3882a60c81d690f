//! The response: one fixed status line, then what the handler returned.

use vstd::prelude::*;
use vstd::string::*;
use crate::handler::{outcome_view, HandlerResult};
use crate::text::{lemma_occurs_in_middle, occurs_in};

verus! {

/// The body of the response to a handler's outcome: the payload as the
/// handler rendered it, or the failure's message after `error: `.
pub open spec fn body_text(outcome: Result<Seq<char>, Seq<char>>) -> Seq<char> {
    match outcome {
        Ok(payload) => payload,
        Err(message) => "error: "@ + message,
    }
}

/// The whole response to a handler's outcome. The status line reports
/// success whether the handler succeeded or failed.
pub open spec fn response_text(outcome: Result<Seq<char>, Seq<char>>) -> Seq<char> {
    "HTTP/1.1 200 OK\n"@ + body_text(outcome) + "\r\n\r\n"@
}

/// Writes the response to a handler's outcome.
pub fn render_response(outcome: &HandlerResult) -> (response: String)
    ensures
        response@ == response_text(outcome_view(*outcome)),
{
    let mut response = String::from_str("HTTP/1.1 200 OK\n");
    match outcome {
        Ok(payload) => {
            response.append(payload.as_str());
        },
        Err(message) => {
            response.append("error: ");
            response.append(message.as_str());
            assert(response@ =~= "HTTP/1.1 200 OK\n"@ + ("error: "@ + message@));
        },
    }
    response.append("\r\n\r\n");
    response
}

/// A payload is found unchanged in the response to it, and a failure's
/// message is found there behind `error: `.
pub proof fn law_outcome_appears_in_response(outcome: Result<Seq<char>, Seq<char>>)
    ensures
        outcome matches Ok(payload) ==> occurs_in(payload, response_text(outcome)),
        outcome matches Err(message) ==> occurs_in("error: "@ + message, response_text(outcome)),
{
    lemma_occurs_in_middle("HTTP/1.1 200 OK\n"@, body_text(outcome), "\r\n\r\n"@);
}

} // verus!
