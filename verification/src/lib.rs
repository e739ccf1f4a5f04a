//! A reverse-proxy library that bridges a public HTTP/WebSocket listener to a
//! privately managed backend process.
//!
//! The crate holds the decision logic of the proxy: route matching, upgrade
//! detection, header selection for both bridge legs, WebSocket message
//! translation, the relay session state machine, and the lifecycle of the
//! backend handle. The surrounding I/O (sockets, HTTP client, process FFI)
//! lives outside the library and hands it plain values.

use vstd::prelude::*;

pub mod config;
pub mod forward;
pub mod handle;
pub mod headers;
pub mod message;
pub mod routes;
pub mod session;
pub mod text;
pub mod urls;

pub use config::Config;

verus! {

/// An error raised while preparing the backend configuration or starting the
/// backend process. Carries a human-readable message.
#[derive(Debug)]
pub struct Error {
    msg: String,
}

impl View for Error {
    type V = Seq<char>;

    closed spec fn view(&self) -> Seq<char> {
        self.msg@
    }
}

impl Error {
    /// Wraps a message into an error value.
    pub fn new(msg: String) -> (e: Error)
        ensures
            e@ == msg@,
    {
        Error { msg }
    }

    /// The error's message, as given at construction.
    pub fn message(&self) -> (m: &String)
        ensures
            m@ == self@,
    {
        &self.msg
    }
}

} // verus!
