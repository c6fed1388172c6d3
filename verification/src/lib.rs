//! Client library for the DFlow APIs.
//!
//! The crate holds the decision logic of the clients: the streaming session that
//! multiplexes subscriptions over one socket, the wire formats, and the request
//! paths of the resource endpoints. Every function states what it computes in its
//! contract. Sockets, timers and HTTP transport are the caller's business: the
//! library hands out the effects to perform and takes back the events that
//! followed.

pub mod common;
pub mod json;
pub mod prediction;
pub mod swap;
pub mod text;
