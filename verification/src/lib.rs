//! Core logic of a candle-downloading pipeline: request validation, fetch
//! target synthesis, cursor-driven pagination, CSV row rendering, and the
//! admission gate that bounds how many symbols run at once. The surrounding
//! binary does the actual network and file I/O and drives these decisions.

pub mod client;
pub mod config;
pub mod digits;
pub mod error;
pub mod service;
pub mod stream;
pub mod types;
pub mod writer;
