//! Cleanup outcomes and their presentation to the status sink.

use vstd::prelude::*;

verus! {

/// What one cleanup invocation achieved.
#[derive(Clone, Copy, PartialEq, Eq, Structural, Debug)]
pub struct CleanupOutcome {
    /// The amount the controller asked the executor to reclaim.
    pub attempted_target_mb: u64,
    /// The amount the executor reports reclaiming; may be zero.
    pub actually_reclaimed_mb: u64,
    /// Whether the executor believes it lacked sufficient privilege to
    /// complete fully, or failed outright.
    pub degraded: bool,
}

/// How a completed cycle is reported to the user.
#[derive(Clone, Copy, PartialEq, Eq, Structural, Debug)]
pub enum OutcomeKind {
    /// The executor reclaimed at least what was asked, undegraded.
    ReclaimComplete,
    /// The executor ran but reclaimed less than requested, or reports that
    /// it lacked privilege.
    ReclaimDegraded,
    /// The executor could not reclaim anything at all.
    ReclaimFailed,
}

/// The report a cycle's outcome earns.
pub open spec fn spec_classify(o: CleanupOutcome) -> OutcomeKind {
    if o.degraded && o.actually_reclaimed_mb == 0 {
        OutcomeKind::ReclaimFailed
    } else if o.degraded || o.actually_reclaimed_mb < o.attempted_target_mb {
        OutcomeKind::ReclaimDegraded
    } else {
        OutcomeKind::ReclaimComplete
    }
}

/// Classify a completed cycle: failed when a degraded run reclaimed nothing,
/// degraded when the run fell short of the request or reports lost
/// privilege, complete otherwise.
pub fn classify(o: &CleanupOutcome) -> (k: OutcomeKind)
    ensures
        k == spec_classify(*o),
{
    if o.degraded && o.actually_reclaimed_mb == 0 {
        OutcomeKind::ReclaimFailed
    } else if o.degraded || o.actually_reclaimed_mb < o.attempted_target_mb {
        OutcomeKind::ReclaimDegraded
    } else {
        OutcomeKind::ReclaimComplete
    }
}

/// The short status line shown for each kind of outcome.
pub fn status_message(k: OutcomeKind) -> (m: &'static str)
    ensures
        k is ReclaimComplete ==> m@ == "memory cleanup complete"@,
        k is ReclaimDegraded ==> m@ == "memory cleanup degraded: reclaimed less than requested"@,
        k is ReclaimFailed ==> m@ == "memory cleanup failed: nothing reclaimed"@,
{
    match k {
        OutcomeKind::ReclaimComplete => "memory cleanup complete",
        OutcomeKind::ReclaimDegraded => "memory cleanup degraded: reclaimed less than requested",
        OutcomeKind::ReclaimFailed => "memory cleanup failed: nothing reclaimed",
    }
}

} // verus!
