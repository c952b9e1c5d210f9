//! The configuration-stage gate of a run.
//!
//! Discovering and decoding the configuration file is a collaborator's job;
//! the rule enforced here is the library's: a run needs at least one
//! configured source, and finding none is fatal before any fetch starts.

use vstd::prelude::*;

use crate::errors::ConfigurationError;

verus! {

/// How many items a run returns when the caller does not choose a limit.
pub const DEFAULT_LIMIT: usize = 20;

/// Admit a configured source list into the pipeline: an empty list is a
/// configuration error, raised here, before any fetch is attempted; a
/// non-empty list passes through unchanged.
pub fn validate_sources(urls: Vec<String>, config_path: String) -> (r: Result<
    Vec<String>,
    ConfigurationError,
>)
    ensures
        match r {
            Ok(v) => urls@.len() > 0 && v == urls,
            Err(e) => urls@.len() == 0 && e == (ConfigurationError::MissingFeeds {
                path: config_path,
            }),
        },
{
    if urls.len() == 0 {
        Err(ConfigurationError::MissingFeeds { path: config_path })
    } else {
        Ok(urls)
    }
}

} // verus!
