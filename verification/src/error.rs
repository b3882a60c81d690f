//! What can go wrong while a server is set up or a request is answered.

use vstd::prelude::*;
use vstd::string::*;
use crate::text::{decimal, decimal_text};

verus! {

/// Why a request was turned away before any handler saw it.
#[derive(Clone, Debug, PartialEq, Eq)]
pub enum RequestFault {
    /// No line came before the blank line that ends the request head.
    Empty,
    /// The request line does not fit the grammar.
    NoMatch { line: String },
    /// The grammar reported `found` groups where four were expected: the
    /// whole match, the method, the path and the protocol.
    GroupCount { found: usize },
    /// The group at `index` took no part in the match.
    MissingGroup { index: usize },
    /// The method token is neither `GET` nor `POST`.
    Method { token: String },
    /// The protocol token does not hold `HTTP`.
    Protocol { token: String },
}

/// An error of the server.
#[derive(Clone, Debug, PartialEq, Eq)]
pub enum ServerError {
    /// A server was asked for with an empty name.
    InvalidConfig,
    /// A handler was registered for a path that already has one.
    DuplicatePath { server: String, path: String },
    /// The listening socket could not be bound.
    BindError { cause: String },
    /// The request is malformed.
    InvalidRequest(RequestFault),
    /// No handler is registered for the requested path.
    NotFound { path: String },
    /// Reading from or writing to the connection failed.
    Io { cause: String },
}

/// The mathematical value of a [`RequestFault`].
pub enum RequestFaultView {
    Empty,
    NoMatch { line: Seq<char> },
    GroupCount { found: nat },
    MissingGroup { index: nat },
    Method { token: Seq<char> },
    Protocol { token: Seq<char> },
}

/// The mathematical value of a [`ServerError`].
pub enum ServerErrorView {
    InvalidConfig,
    DuplicatePath { server: Seq<char>, path: Seq<char> },
    BindError { cause: Seq<char> },
    InvalidRequest(RequestFaultView),
    NotFound { path: Seq<char> },
    Io { cause: Seq<char> },
}

impl View for RequestFault {
    type V = RequestFaultView;

    open spec fn view(&self) -> RequestFaultView {
        match *self {
            RequestFault::Empty => RequestFaultView::Empty,
            RequestFault::NoMatch { line } => RequestFaultView::NoMatch { line: line@ },
            RequestFault::GroupCount { found } => RequestFaultView::GroupCount {
                found: found as nat,
            },
            RequestFault::MissingGroup { index } => RequestFaultView::MissingGroup {
                index: index as nat,
            },
            RequestFault::Method { token } => RequestFaultView::Method { token: token@ },
            RequestFault::Protocol { token } => RequestFaultView::Protocol { token: token@ },
        }
    }
}

impl View for ServerError {
    type V = ServerErrorView;

    open spec fn view(&self) -> ServerErrorView {
        match *self {
            ServerError::InvalidConfig => ServerErrorView::InvalidConfig,
            ServerError::DuplicatePath { server, path } => ServerErrorView::DuplicatePath {
                server: server@,
                path: path@,
            },
            ServerError::BindError { cause } => ServerErrorView::BindError { cause: cause@ },
            ServerError::InvalidRequest(fault) => ServerErrorView::InvalidRequest(fault@),
            ServerError::NotFound { path } => ServerErrorView::NotFound { path: path@ },
            ServerError::Io { cause } => ServerErrorView::Io { cause: cause@ },
        }
    }
}

impl RequestFaultView {
    /// The sentence that describes the fault.
    pub open spec fn message(self) -> Seq<char> {
        match self {
            RequestFaultView::Empty => "HTTP request is invalid"@,
            RequestFaultView::NoMatch { line } => {
                "HTTP request is invalid - no parts found in line: "@ + line
            },
            RequestFaultView::GroupCount { found } => {
                "HTTP request is invalid: expected 4 parts but found "@ + decimal_text(found)
            },
            RequestFaultView::MissingGroup { index } => {
                "HTTP request is invalid: nothing was captured for part "@ + decimal_text(index)
            },
            RequestFaultView::Method { token } => {
                "HTTP request is invalid: unexpected method: "@ + token
            },
            RequestFaultView::Protocol { token } => {
                "HTTP request is invalid: expected protocol to be HTTP but got "@ + token
            },
        }
    }
}

impl ServerErrorView {
    /// The sentence that describes the error.
    pub open spec fn message(self) -> Seq<char> {
        match self {
            ServerErrorView::InvalidConfig => {
                "RestServer: cannot create a new server with empty name"@
            },
            ServerErrorView::DuplicatePath { server, path } => {
                "HttpServer ["@ + server + "] path ["@ + path
                    + "]: attempted to set handler twice"@
            },
            ServerErrorView::BindError { cause } => cause,
            ServerErrorView::InvalidRequest(fault) => fault.message(),
            ServerErrorView::NotFound { path } => {
                "HTTP request is invalid: No handler found for path "@ + path
            },
            ServerErrorView::Io { cause } => cause,
        }
    }
}

impl RequestFault {
    /// Renders the fault as a sentence.
    pub fn message(&self) -> (s: String)
        ensures
            s@ == self@.message(),
    {
        match self {
            RequestFault::Empty => String::from_str("HTTP request is invalid"),
            RequestFault::NoMatch { line } => {
                let mut s = String::from_str("HTTP request is invalid - no parts found in line: ");
                s.append(line.as_str());
                s
            },
            RequestFault::GroupCount { found } => {
                let mut s = String::from_str(
                    "HTTP request is invalid: expected 4 parts but found ",
                );
                let number = decimal(*found as u64);
                s.append(number.as_str());
                s
            },
            RequestFault::MissingGroup { index } => {
                let mut s = String::from_str(
                    "HTTP request is invalid: nothing was captured for part ",
                );
                let number = decimal(*index as u64);
                s.append(number.as_str());
                s
            },
            RequestFault::Method { token } => {
                let mut s = String::from_str("HTTP request is invalid: unexpected method: ");
                s.append(token.as_str());
                s
            },
            RequestFault::Protocol { token } => {
                let mut s = String::from_str(
                    "HTTP request is invalid: expected protocol to be HTTP but got ",
                );
                s.append(token.as_str());
                s
            },
        }
    }
}

impl ServerError {
    /// Renders the error as a sentence.
    pub fn message(&self) -> (s: String)
        ensures
            s@ == self@.message(),
    {
        match self {
            ServerError::InvalidConfig => {
                String::from_str("RestServer: cannot create a new server with empty name")
            },
            ServerError::DuplicatePath { server, path } => {
                let mut s = String::from_str("HttpServer [");
                s.append(server.as_str());
                s.append("] path [");
                s.append(path.as_str());
                s.append("]: attempted to set handler twice");
                s
            },
            ServerError::BindError { cause } => cause.clone(),
            ServerError::InvalidRequest(fault) => fault.message(),
            ServerError::NotFound { path } => {
                let mut s = String::from_str(
                    "HTTP request is invalid: No handler found for path ",
                );
                s.append(path.as_str());
                s
            },
            ServerError::Io { cause } => cause.clone(),
        }
    }
}

} // verus!
