//! Decoding and presentation layer for an Ethereum-style JSON-RPC client.
//!
//! The library turns wire-format JSON-RPC results (quantities as
//! `0x`-prefixed hex strings, nested block/transaction objects) into typed
//! decimal domain values, builds the request envelopes for a fixed method
//! catalog, and renders decoded values as labeled text lines.  All I/O (the
//! HTTP transport, JSON (de)serialization, the interactive menu loop) lives
//! outside the library.

pub mod cli;
pub mod decimal;
pub mod hex;
pub mod render;
pub mod request;
pub mod types;
pub mod units;
