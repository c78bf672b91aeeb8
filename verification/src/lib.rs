//! A minimal TLS-terminating HTTP/1.1 responder library.
//!
//! The library holds the protocol logic of a one-request-per-connection
//! server: detecting when a request head is complete, parsing and routing
//! the request line, generating the three canned responses, and driving
//! the per-connection record-pump state machine over a TLS session.
//! Socket I/O lives outside the library; the session object is handed in
//! and the library talks to it through a few trusted wrappers.

pub mod head;
pub mod response;
pub mod pump;
