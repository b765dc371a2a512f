//! Network/resolution engine behind a package manager's `update` operation.
//!
//! The library holds the decision logic of the pipeline: building sub-index
//! and leaf URLs, the redirect-following state machine, per-seed planning,
//! index expansion, destination decisions, and the bounded-concurrency
//! download pool. The surrounding process performs the actual HTTP requests
//! and file writes and feeds the outcomes back in as plain values.

use vstd::prelude::*;

pub mod downloader;
pub mod model;
pub mod redirect;
pub mod resolver;
pub mod uri;
pub mod urls;

verus! {

/// The identity function.
pub fn id<T>(slf: T) -> (r: T)
    ensures
        r == slf,
{
    slf
}

} // verus!
