//! What the accept loop does after each thing that happens to it.
//!
//! A caller binds the socket, accepts connections and has each of them
//! handled. After every step it reports what happened and is told how to go
//! on. Only a socket that cannot be bound ends the loop.

use vstd::prelude::*;
use vstd::string::*;
use crate::error::{ServerError, ServerErrorView};

verus! {

/// What happened to the accept loop.
#[derive(Clone, Debug, PartialEq, Eq)]
pub enum ListenEvent {
    /// The listening socket could not be bound.
    BindFailed { cause: String },
    /// A connection could not be accepted.
    AcceptFailed { cause: String },
    /// A connection was handled and answered.
    Handled,
    /// Handling a connection failed with this error.
    HandleFailed(ServerError),
}

/// How the accept loop goes on.
#[derive(Clone, Debug, PartialEq, Eq)]
pub enum ListenAction {
    /// Give up and return the error.
    Stop(ServerError),
    /// Write the line to the log and wait for the next connection.
    Report(String),
    /// Wait for the next connection.
    Continue,
}

/// The mathematical value of a [`ListenEvent`].
pub enum ListenEventView {
    BindFailed { cause: Seq<char> },
    AcceptFailed { cause: Seq<char> },
    Handled,
    HandleFailed(ServerErrorView),
}

/// The mathematical value of a [`ListenAction`].
pub enum ListenActionView {
    Stop(ServerErrorView),
    Report(Seq<char>),
    Continue,
}

impl View for ListenEvent {
    type V = ListenEventView;

    open spec fn view(&self) -> ListenEventView {
        match *self {
            ListenEvent::BindFailed { cause } => ListenEventView::BindFailed { cause: cause@ },
            ListenEvent::AcceptFailed { cause } => ListenEventView::AcceptFailed { cause: cause@ },
            ListenEvent::Handled => ListenEventView::Handled,
            ListenEvent::HandleFailed(error) => ListenEventView::HandleFailed(error@),
        }
    }
}

impl View for ListenAction {
    type V = ListenActionView;

    open spec fn view(&self) -> ListenActionView {
        match *self {
            ListenAction::Stop(error) => ListenActionView::Stop(error@),
            ListenAction::Report(line) => ListenActionView::Report(line@),
            ListenAction::Continue => ListenActionView::Continue,
        }
    }
}

impl ListenEventView {
    /// How the loop goes on after this event. A failure to bind is fatal. A
    /// failure to accept or to handle one connection is written to the log,
    /// and the loop waits for the next connection.
    pub open spec fn action(self) -> ListenActionView {
        match self {
            ListenEventView::BindFailed { cause } => ListenActionView::Stop(
                ServerErrorView::BindError { cause },
            ),
            ListenEventView::AcceptFailed { cause } => ListenActionView::Report(
                "Error in connection: "@ + cause,
            ),
            ListenEventView::Handled => ListenActionView::Continue,
            ListenEventView::HandleFailed(error) => ListenActionView::Report(
                "Error in handling connection: "@ + error.message(),
            ),
        }
    }
}

/// Decides how the accept loop goes on after `event`.
pub fn next_action(event: &ListenEvent) -> (action: ListenAction)
    ensures
        action@ == event@.action(),
{
    match event {
        ListenEvent::BindFailed { cause } => ListenAction::Stop(
            ServerError::BindError { cause: cause.clone() },
        ),
        ListenEvent::AcceptFailed { cause } => {
            let mut line = String::from_str("Error in connection: ");
            line.append(cause.as_str());
            ListenAction::Report(line)
        },
        ListenEvent::Handled => ListenAction::Continue,
        ListenEvent::HandleFailed(error) => {
            let mut line = String::from_str("Error in handling connection: ");
            let message = error.message();
            line.append(message.as_str());
            ListenAction::Report(line)
        },
    }
}

/// Nothing that happens to a single connection ends the accept loop: it
/// ends only where the socket could not be bound.
pub proof fn law_only_bind_failure_stops(event: ListenEventView)
    ensures
        event.action() is Stop <==> event is BindFailed,
{
}

} // verus!
