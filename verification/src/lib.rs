//! A small search engine over a directory of text and PDF files, with a
//! time-limited cache of ranked results.
//!
//! The crate holds the decisions of the engine: how a file is classified,
//! how a directory walk proceeds, what is written to the index, how a query
//! is answered from the index, and when a cached answer may be served.
//! Whatever touches the file system or the network is left to the caller,
//! which performs the requests that the state machines here hand out.

pub mod types;
pub mod errors;
pub mod cli;
mod index_store;
pub mod json;
pub mod cache;
pub mod helpers;
pub mod indexer;
pub mod log;
pub mod searcher;
