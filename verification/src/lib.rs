//! The core of a minimal HTTP/1.1 server, free of any I/O.
//!
//! A caller owns the sockets. It feeds the lines it reads to a
//! [`head::RequestHead`], hands the collected lines to
//! [`server::RestServer::handle_connection`], and writes the returned text
//! back to the peer. Everything between the read and the write is decided
//! here.

pub mod error;
pub mod grammar;
pub mod handler;
pub mod head;
pub mod listener;
pub mod method;
pub mod request;
pub mod response;
pub mod server;
pub mod text;

pub use error::{RequestFault, ServerError};
pub use handler::{handle_ping, HandlerFunc, HandlerResult};
pub use method::HttpMethod;
pub use request::HttpRequest;
pub use server::RestServer;
