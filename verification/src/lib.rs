//! Sans-I/O core of a WebTransport echo server used to measure transport latency.
//!
//! The crate holds every decision the server takes: how credentials are read
//! out of PEM or DER bytes, which settings the endpoint and the HTTP/3 layer
//! are built with, and the state machines of the accept loop, of one
//! connection, of one session and of the session's stream writer. A driver
//! performs the actions the machines ask for and feeds the outcomes back.

pub mod acceptor;
pub mod config;
pub mod connection;
pub mod credentials;
pub mod payload;
pub mod pipeline;
pub mod session;
pub mod writer;
