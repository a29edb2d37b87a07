//! Verified core of a command-line client for a remote file-vault HTTP
//! service.
//!
//! The crate contains the request-construction and response-interpretation
//! layer of the client: it turns validated command arguments into request
//! descriptions, and turns the service's polymorphic JSON responses (plus
//! HTTP status codes) into a small set of well-defined outcomes together
//! with the display lines to render.  All network and file I/O, argument
//! parsing and terminal colouring live outside this crate; they exchange
//! plain values with the functions here.

pub mod cli;
pub mod flow;
pub mod interpret;
pub mod laws;
pub mod paths;
pub mod request;
pub mod response;
