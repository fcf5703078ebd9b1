//! Client library for a Solana validator-monitoring REST service.
//!
//! The library builds the request URL for each operation of the service,
//! and decodes the JSON bodies that come back into typed records, with the
//! lenient field handling the service requires: optional fields may be
//! absent or null, and numeric fields may arrive as strings.
//! The HTTP transport itself lives outside the library: a caller hands each
//! response body (or the transport's error) to the response functions here.

pub mod client;
pub mod codec;
pub mod decode;
pub mod error;
pub mod json;
pub mod models;
pub mod num;
pub mod text;
