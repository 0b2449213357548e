//! Disposition of a comparative projection request at admission.
use vstd::prelude::*;

verus! {

/// What admission decided for a comparative projection request.
#[derive(Clone, Debug, PartialEq, Eq)]
pub enum ComparativeProjectionDisposition {
    /// Fewer than two emitters: nothing to compare.
    InsufficientEmitters { emitter_count: u32 },
    /// The author opted out, with a reason.
    AuthoredOptOut { reason: &'static str },
    /// The projection was born with its derived columns.
    Born { emitter_count: u32, derived_column_count: u32 },
}

} // verus!
