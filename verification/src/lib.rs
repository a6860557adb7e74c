//! Fetch/extract/aggregate pipeline for pulling one embedded string value
//! (an RSS feed URL) out of the inline script fragments of remote pages.
//!
//! The library holds the verified core: the marker-based extraction scan,
//! the per-identifier stage decision, the failure aggregator, and the
//! bounded-concurrency orchestrator state machine. Network I/O and result
//! presentation live outside, in the surrounding application.

use vstd::prelude::*;

pub mod aggregate;
pub mod extract;
pub mod orchestrate;
pub mod outcome;
pub mod search;

verus! {

/// Maximum number of pipeline stages allowed in flight at once.
pub const CONCURRENCY_BOUND: usize = 10;

} // verus!
