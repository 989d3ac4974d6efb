use memclean::memory::bytes_to_mb;
use memclean::memory::sample_from_bytes;
use memclean::memory::ReclaimPlan;
use memclean::memory::BYTES_PER_MB;
use memclean::memory::RECLAIM_CHUNK_MB;
use memclean::outcome::classify;
use memclean::outcome::status_message;
use memclean::outcome::CleanupOutcome;
use memclean::outcome::OutcomeKind;

fn outcome(attempted: u64, reclaimed: u64, degraded: bool) -> CleanupOutcome {
    CleanupOutcome {
        attempted_target_mb: attempted,
        actually_reclaimed_mb: reclaimed,
        degraded,
    }
}

#[test]
fn classify_complete() {
    assert_eq!(
        classify(&outcome(100, 100, false)),
        OutcomeKind::ReclaimComplete
    );
    assert_eq!(
        classify(&outcome(100, 150, false)),
        OutcomeKind::ReclaimComplete
    );
    // Nothing asked, nothing reclaimed, undegraded: complete.
    assert_eq!(classify(&outcome(0, 0, false)), OutcomeKind::ReclaimComplete);
}

#[test]
fn classify_degraded() {
    // Fell short of the request.
    assert_eq!(
        classify(&outcome(100, 40, false)),
        OutcomeKind::ReclaimDegraded
    );
    // Lost privilege but still made progress.
    assert_eq!(
        classify(&outcome(100, 100, true)),
        OutcomeKind::ReclaimDegraded
    );
}

#[test]
fn classify_failed() {
    // Degraded with nothing reclaimed: the executor could not run.
    assert_eq!(classify(&outcome(100, 0, true)), OutcomeKind::ReclaimFailed);
    // Undegraded zero progress on a nonzero request only fell short.
    assert_eq!(
        classify(&outcome(100, 0, false)),
        OutcomeKind::ReclaimDegraded
    );
}

#[test]
fn status_messages_distinguish_kinds() {
    assert_eq!(
        status_message(OutcomeKind::ReclaimComplete),
        "memory cleanup complete"
    );
    assert_eq!(
        status_message(OutcomeKind::ReclaimDegraded),
        "memory cleanup degraded: reclaimed less than requested"
    );
    assert_eq!(
        status_message(OutcomeKind::ReclaimFailed),
        "memory cleanup failed: nothing reclaimed"
    );
}

#[test]
fn bytes_to_mb_rounds_down() {
    assert_eq!(BYTES_PER_MB, 1024 * 1024);
    assert_eq!(bytes_to_mb(0), 0);
    assert_eq!(bytes_to_mb(BYTES_PER_MB - 1), 0);
    assert_eq!(bytes_to_mb(BYTES_PER_MB), 1);
    assert_eq!(bytes_to_mb(8 * 1024 * 1024 * 1024), 8 * 1024);
}

#[test]
fn sample_from_bytes_reports_used_and_total() {
    // 16 GiB total, 6 GiB available: 10 GiB used.
    let total: u64 = 16 * 1024 * BYTES_PER_MB;
    let avail: u64 = 6 * 1024 * BYTES_PER_MB;
    let (used_mb, total_mb) = sample_from_bytes(total, avail);
    assert_eq!(total_mb, 16 * 1024);
    assert_eq!(used_mb, 10 * 1024);
}

#[test]
fn sample_from_bytes_with_nothing_available() {
    let (used_mb, total_mb) = sample_from_bytes(BYTES_PER_MB * 5, 0);
    assert_eq!(used_mb, 5);
    assert_eq!(total_mb, 5);
}

#[test]
fn reclaim_plan_counts_whole_chunks() {
    assert_eq!(RECLAIM_CHUNK_MB, 100);
    let p = ReclaimPlan::new(1076);
    assert_eq!(p.chunks_total, 10);
    assert_eq!(p.chunks_done, 0);
    // A target below one chunk plans no work.
    assert_eq!(ReclaimPlan::new(99).chunks_total, 0);
    assert_eq!(ReclaimPlan::new(0).chunks_total, 0);
}

#[test]
fn reclaim_plan_run_to_completion() {
    let mut p = ReclaimPlan::new(350);
    assert_eq!(p.chunks_total, 3);
    let mut steps: u64 = 0;
    while p.should_continue() {
        p.record_chunk();
        steps += 1;
    }
    assert_eq!(steps, 3);
    assert_eq!(p.reclaimed_mb(), 300);
}

#[test]
fn reclaim_plan_partial_progress() {
    let mut p = ReclaimPlan::new(1000);
    p.record_chunk();
    p.record_chunk();
    assert_eq!(p.reclaimed_mb(), 200);
    assert!(p.should_continue());
}
