//! Failures of projecting arena pressure seeds onto admitted participants.
use vstd::prelude::*;

verus! {

/// Why a pressure binding could not be projected.
#[derive(Debug)]
pub enum ArenaPressureError {
    /// The binding names an arena that does not exist.
    UnknownArena { arena: String },
    /// The binding target is not a scenario install target.
    UnknownTarget { target_id: String },
    /// The target resolved to no admitted participant of the arena.
    TargetNotAdmitted { target_id: String, arena: String },
    /// The arena's flow column could not be resolved.
    ColumnResolution { arena: String, reason: String },
    /// The projected pressure for the target is not finite.
    NonFinitePressure { target_id: String },
}

} // verus!
