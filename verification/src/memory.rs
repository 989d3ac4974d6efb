//! Arithmetic at the sampler and executor boundaries.
//!
//! The sampler reads raw byte counts from the operating system; this module
//! turns them into the megabyte figures the controller compares against its
//! thresholds.  The executor reclaims memory in fixed-size chunks; the
//! reclaim plan counts the chunks a target calls for and the amount a
//! partially completed run achieved.

use vstd::prelude::*;
use vstd::arithmetic::div_mod::lemma_div_is_ordered;
use vstd::arithmetic::div_mod::lemma_fundamental_div_mod;
use vstd::arithmetic::mul::lemma_mul_inequality;

verus! {

/// Bytes per megabyte.
pub const BYTES_PER_MB: u64 = 1024 * 1024;

/// Size of one reclamation chunk, in megabytes.
pub const RECLAIM_CHUNK_MB: u64 = 100;

/// Turn a raw byte count into whole megabytes, rounding down.
pub fn bytes_to_mb(bytes: u64) -> (r: u64)
    ensures
        r == bytes / BYTES_PER_MB,
{
    bytes / BYTES_PER_MB
}

/// Turn the sampler's raw byte counts into `(used_mb, total_mb)`: the
/// current value of the tracked metric and its upper bound, in megabytes.
/// The available amount never exceeds the total the same reading reports.
pub fn sample_from_bytes(total_bytes: u64, avail_bytes: u64) -> (r: (u64, u64))
    requires
        avail_bytes <= total_bytes,
    ensures
        r.1 == total_bytes / BYTES_PER_MB,
        r.0 == total_bytes / BYTES_PER_MB - avail_bytes / BYTES_PER_MB,
        r.0 <= r.1,
{
    let total_mb: u64 = total_bytes / BYTES_PER_MB;
    let avail_mb: u64 = avail_bytes / BYTES_PER_MB;
    proof {
        lemma_div_is_ordered(avail_bytes as int, total_bytes as int, BYTES_PER_MB as int);
    }
    (total_mb - avail_mb, total_mb)
}

/// Progress of one chunked reclamation run: how many fixed-size chunks the
/// target calls for and how many have been freed so far.
#[derive(Clone, Copy, PartialEq, Eq, Structural, Debug)]
pub struct ReclaimPlan {
    /// Chunks the requested target amounts to, rounding down.
    pub chunks_total: u64,
    /// Chunks freed so far.
    pub chunks_done: u64,
}

impl ReclaimPlan {
    /// Progress never exceeds the plan, and the plan is small enough that
    /// the reclaimed amount cannot overflow.
    pub open spec fn wf(self) -> bool {
        &&& self.chunks_done <= self.chunks_total
        &&& self.chunks_total <= u64::MAX as int / RECLAIM_CHUNK_MB as int
    }

    /// A fresh plan for reclaiming `target_mb`: as many whole chunks as fit
    /// in the target, none freed yet.
    pub fn new(target_mb: u64) -> (p: ReclaimPlan)
        ensures
            p.chunks_total == target_mb / RECLAIM_CHUNK_MB,
            p.chunks_done == 0,
            p.wf(),
    {
        proof {
            lemma_div_is_ordered(target_mb as int, u64::MAX as int, RECLAIM_CHUNK_MB as int);
        }
        ReclaimPlan { chunks_total: target_mb / RECLAIM_CHUNK_MB, chunks_done: 0 }
    }

    /// Whether another chunk should be attempted.
    pub fn should_continue(&self) -> (b: bool)
        ensures
            b == (self.chunks_done < self.chunks_total),
    {
        self.chunks_done < self.chunks_total
    }

    /// Record one successfully freed chunk.
    pub fn record_chunk(&mut self)
        requires
            old(self).wf(),
            old(self).chunks_done < old(self).chunks_total,
        ensures
            final(self).chunks_done == old(self).chunks_done + 1,
            final(self).chunks_total == old(self).chunks_total,
            final(self).wf(),
    {
        self.chunks_done = self.chunks_done + 1;
    }

    /// The amount freed so far, in megabytes.
    pub fn reclaimed_mb(&self) -> (r: u64)
        requires
            self.wf(),
        ensures
            r == self.chunks_done * RECLAIM_CHUNK_MB,
    {
        proof {
            lemma_mul_inequality(
                self.chunks_done as int,
                u64::MAX as int / RECLAIM_CHUNK_MB as int,
                RECLAIM_CHUNK_MB as int,
            );
            lemma_fundamental_div_mod(u64::MAX as int, RECLAIM_CHUNK_MB as int);
        }
        self.chunks_done * RECLAIM_CHUNK_MB
    }
}

} // verus!
