//! Verified core of a static-file web server.
//!
//! The library turns an attacker-controlled request path into a safe response
//! decision: which file to serve (confined to the site root), with which
//! status code, content type and headers. Everything that touches the
//! filesystem or the network lives outside; the functions here receive the
//! filesystem's answers (canonicalization outcome, directory test, existence
//! test, open and metadata outcomes) as plain values and make the decisions.

pub mod media;
pub mod path;
pub mod resolve;
pub mod respond;
pub mod state;
pub mod text;
pub mod www;

pub use path::FsPath;
