//! The error taxonomy of one aggregation run.
//!
//! `FetchError` and `ParseError` are fatal only to the source that produced
//! them; `WorkerError` scopes one of them to a single source. Configuration
//! problems are the only run-fatal errors and are raised before any fetch is
//! attempted.

use vstd::prelude::*;

verus! {

/// Why retrieving one source's payload failed.
#[derive(Clone, Copy, Debug, PartialEq, Eq, Structural)]
pub enum FetchError {
    /// The connection could not be made or timed out.
    Connection,
    /// The server answered with the given non-success HTTP status.
    Status(u16),
    /// The response body could not be read.
    Body,
}

/// Why one source's payload could not become items.
#[derive(Clone, Copy, Debug, PartialEq, Eq, Structural)]
pub enum ParseError {
    /// The payload is neither recognizable RSS nor Atom.
    UnknownFormat,
    /// An entry of the feed has no publish date that parses; the whole
    /// source is abandoned.
    MissingOrInvalidDate,
}

/// A per-source failure: either stage, scoped to that source alone.
#[derive(Clone, Copy, Debug, PartialEq, Eq, Structural)]
pub enum WorkerError {
    Fetch(FetchError),
    Parse(ParseError),
}

/// A problem with the run's configuration; fatal to the whole run.
#[derive(Clone, Debug)]
pub enum ConfigurationError {
    /// The configuration file could not be read.
    CouldNotRead { path: String },
    /// The configuration file is not well-formed.
    CouldNotParse { path: String },
    /// The feeds section is missing or holds no entries.
    MissingFeeds { path: String },
    /// A feed entry lacks a URL string argument; the index says which.
    InvalidFeedUrl { path: String, entry: usize },
}

} // verus!
