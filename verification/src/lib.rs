//! A client for a remote chat-completion endpoint, as a library of decisions.
//!
//! The library resolves a configuration, decides whether anything has to be
//! sent, lays out the one HTTP request of an invocation down to its last
//! header, and reads the reply out of the response body. It performs no I/O:
//! a caller carries the request to the network and brings the bytes back.

pub mod ask;
pub mod config;
pub mod error;
pub mod json;
pub mod message;
pub mod numeral;
pub mod pipeline;
pub mod request;
pub mod response;
pub mod session;
pub mod transport;
