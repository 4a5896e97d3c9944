//! The observer that receives the scheduler's and downloader's state snapshots.
use vstd::prelude::*;

verus! {

/// Receives state snapshots for observation; the actor around it logs them.
pub struct Stats;

} // verus!
