//! Error taxonomy: validation, transport construction, fetch, and file
//! failures. Payloads that the transport produced are carried as plain text.

use vstd::prelude::*;

verus! {

/// Why a request was refused before any fetch was attempted.
#[derive(Clone, Copy, PartialEq, Eq, Structural, Debug)]
pub enum ValidationError {
    /// The ticker symbol is empty.
    EmptyTicker,
    /// The range ends before it starts.
    InvertedRange,
    /// The page limit is zero.
    ZeroLimit,
}

/// Failure to construct the HTTP transport; fatal to the whole run.
#[derive(Clone, PartialEq, Eq, Debug)]
pub enum Init {
    /// The transport could not be built; the text is its report.
    ClientInitialization(String),
    /// The key cannot be carried in an authorization header.
    InvalidApiKey(String),
    /// The base address is not a usable URL.
    InvalidBaseUrl(String),
}

/// Failure while persisting rows to a symbol's output file.
#[derive(Clone, PartialEq, Eq, Debug)]
pub enum FileIo {
    /// A row could not be written.
    Csv(String),
    /// The file could not be written or flushed.
    FileWrite(String),
    /// The file or its directories could not be created or opened.
    CreateFile(String),
}

/// Any failure of one symbol's pipeline.
#[derive(Clone, PartialEq, Eq, Debug)]
pub enum Error {
    /// Transport construction failed.
    Init(Init),
    /// Writing the output file failed.
    File(FileIo),
    /// The fetch target is not a valid URL; holds the rejected text.
    InvalidUrl(String),
    /// The request could not be sent.
    SendRequest(String),
    /// The response body did not decode as the expected envelope.
    Deserialization(String),
    /// The server answered with this status code, at least 400.
    UnexpectedStatus(u16),
    /// A value could not be serialized.
    Serde(String),
    /// The request parameters were refused.
    InvalidRequest(ValidationError),
}

} // verus!
