//! Client-side protocol engine for a JSON-line, request/reply mining-pool
//! protocol (stratum-like, CryptoNote family).
//!
//! The crate covers the wire data model with its custom hex encodings, the
//! session writer (request-identifier allocation and line framing), the
//! session reader (event / idle / fatal classification), the login handshake
//! decisions and the steady-state dispatch decisions. Socket I/O itself is
//! left to the embedding application, which hands lines and read outcomes in
//! and carries framed lines out.

pub mod hexbytes;
pub mod json;
pub mod message;
pub mod connection;
pub mod client;
