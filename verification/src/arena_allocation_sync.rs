//! Outcome of synchronizing resource-flow allocation plans.
use vstd::prelude::*;

verus! {

/// How many arenas were planned, with how many operations over how many order bands.
#[derive(Clone, Copy, Debug, PartialEq, Eq)]
pub struct ResourceFlowSyncReport {
    pub arenas_planned: u32,
    pub total_ops: u32,
    pub n_bands: u32,
}

} // verus!
