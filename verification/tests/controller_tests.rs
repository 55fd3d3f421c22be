use checkpoint_ctl::backpressure::{admission_error, AdmissionWait};
use checkpoint_ctl::error::AdmissionError;
use checkpoint_ctl::config::{CheckpointConfig, DatabaseConfig};
use checkpoint_ctl::controller::CheckpointController;
use checkpoint_ctl::error::ConfigError;

const DEADLINE: u64 = 30_000;
const WATCHDOG: u64 = 120_000;
const RETRIES: u64 = 3;
const IN_FLIGHT: usize = 4;

fn db(capacity: usize) -> DatabaseConfig {
    DatabaseConfig {
        buffer_pool_size: capacity,
        page_size: 4096,
        checkpoint: CheckpointConfig {
            max_interval: 60_000,
            min_interval: 5_000,
            max_wal_size: 1024 * 1024 * 1024,
            dirty_page_soft_limit_pct: 70,
            dirty_page_hard_limit_pct: 90,
            checkpoint_batch_size: 256,
            async_checkpoint: true,
        },
    }
}

fn controller(capacity: usize) -> CheckpointController {
    CheckpointController::new(db(capacity), DEADLINE, WATCHDOG, RETRIES, IN_FLIGHT).unwrap()
}

/// Drives every batch of the live run to success and commits it.
fn drive_to_commit(
    c: &mut CheckpointController,
    end_lsn: u64,
) -> checkpoint_ctl::executor::CheckpointRecord {
    let mut batches = 0;
    while let Some(batch) = c.next_batch() {
        assert!(!batch.is_empty());
        assert!(!c.on_batch_result(true));
        batches += 1;
        assert!(batches <= 1_000_000, "runaway batch loop");
    }
    c.try_commit(end_lsn).expect("a run ready to commit")
}

#[test]
fn invalid_config_fails_fast() {
    let mut bad = db(1000);
    bad.checkpoint.dirty_page_hard_limit_pct = bad.checkpoint.dirty_page_soft_limit_pct;
    match CheckpointController::new(bad, DEADLINE, WATCHDOG, RETRIES, IN_FLIGHT) {
        Err(ConfigError::HardLimitNotAboveSoft) => {},
        other => panic!("expected fail-fast construction, got {:?}", other.is_ok()),
    }
}

#[test]
fn soft_limit_triggers_background_checkpoint_without_blocking() {
    // Capacity 1000, 720 dirty: 72% is over the 70% soft limit.
    let mut c = controller(1000);
    for p in 0..720u64 {
        c.mark_dirty(p, p + 1);
    }
    assert!(
        c.admission_allowed(),
        "72% dirty is under the hard limit: admission must not block"
    );
    let out = c.poll(1, 0, 1_000);
    assert!(out.started, "the soft limit must request a background checkpoint");
    assert!(!out.fatal_backpressure);
}

#[test]
fn hard_limit_blocks_admission_until_checkpoint_reduces_dirty_pages() {
    // Capacity 1000, 910 dirty: 91% is over the 90% hard limit.
    let mut c = controller(1000);
    for p in 0..910u64 {
        c.mark_dirty(p, p + 1);
    }
    assert!(!c.admission_allowed(), "91% dirty must block new admissions");
    // The blocked admission keeps waiting while the ratio is over soft.
    assert_eq!(c.poll_admission(1_000, 2_000), AdmissionWait::KeepWaiting);
    // A checkpoint run flushes everything.
    let out = c.poll(1_000, 0, 10_000);
    assert!(out.started);
    let rec = drive_to_commit(&mut c, 10_000);
    assert_eq!(c.dirty_page_count(), 0);
    assert!(rec.recovery_lsn <= rec.begin_lsn);
    // Zero dirty is at or below the 70% soft limit: the waiter proceeds.
    assert_eq!(c.poll_admission(1_000, 3_000), AdmissionWait::Proceed);
    assert!(c.admission_allowed());
}

#[test]
fn blocked_admission_times_out_at_the_deadline() {
    let mut c = controller(1000);
    for p in 0..910u64 {
        c.mark_dirty(p, p + 1);
    }
    assert_eq!(
        c.poll_admission(1_000, 1_000 + DEADLINE),
        AdmissionWait::TimedOut,
        "the bounded wait must fail with a resource-exhaustion error"
    );
}

#[test]
fn admission_errors_follow_the_taxonomy() {
    assert_eq!(
        admission_error(AdmissionWait::TimedOut, false),
        Some(AdmissionError::Timeout)
    );
    assert_eq!(
        admission_error(AdmissionWait::KeepWaiting, true),
        Some(AdmissionError::StuckBackpressure)
    );
    assert_eq!(admission_error(AdmissionWait::Proceed, false), None);
    assert_eq!(admission_error(AdmissionWait::KeepWaiting, false), None);
}

#[test]
fn wal_ceiling_triggers_checkpoint_at_low_dirty_ratio() {
    // 10% dirty, WAL at its 1 GiB ceiling: the size monitor alone fires.
    let mut c = controller(1000);
    for p in 0..100u64 {
        c.mark_dirty(p, p + 1);
    }
    let quiet = c.poll(1, 1024 * 1024 * 1024 - 1, 1_000);
    assert!(!quiet.started, "below the ceiling and the soft limit nothing fires");
    let out = c.poll(2, 1024 * 1024 * 1024, 1_000);
    assert!(out.started, "the WAL ceiling alone must trigger a checkpoint");
}

#[test]
fn quiet_controller_checkpoints_only_at_max_interval() {
    let mut c = controller(1000);
    c.mark_dirty(1, 10);
    // Establish a first run so the staleness timer has an anchor.
    c.request_checkpoint();
    let out = c.poll(0, 0, 100);
    assert!(out.started);
    drive_to_commit(&mut c, 200);
    // Quiet inputs: dirty ratio far below soft, WAL far below its size.
    let mut started_before_deadline = false;
    let mut t = 5_000;
    while t < 60_000 {
        let out = c.poll(t, 0, 200);
        started_before_deadline = started_before_deadline || out.started;
        t += 5_000;
    }
    assert!(
        !started_before_deadline,
        "no trigger source: nothing may start before max_interval"
    );
    let out = c.poll(60_000, 0, 200);
    assert!(out.started, "the staleness timer fires at max_interval");
}

#[test]
fn two_triggers_in_cooldown_start_one_run_at_the_spacing_mark() {
    // Two requests 2 seconds apart under a 5-second minimum interval:
    // exactly one run starts, at the 5-second mark.
    let mut c = controller(1000);
    c.request_checkpoint();
    assert!(c.poll(0, 0, 10).started);
    drive_to_commit(&mut c, 20);
    c.request_checkpoint();
    assert!(!c.poll(1_000, 0, 20).started);
    c.request_checkpoint();
    assert!(!c.poll(3_000, 0, 20).started);
    assert!(!c.poll(4_999, 0, 20).started);
    let out = c.poll(5_000, 0, 20);
    assert!(out.started, "the deferred run starts once min_interval has passed");
    // Both requests were coalesced into that one run.
    drive_to_commit(&mut c, 30);
    assert!(!c.poll(10_000, 0, 30).started, "no second queued run remains");
}

#[test]
fn failing_batch_retries_and_the_commit_covers_all_batches() {
    // 1280 pages in batches of 256: five batches; the third fails twice
    // and succeeds on its third attempt. The run still commits, and the
    // dirty table and recovery anchor reflect all five batches.
    let mut c = controller(10_000);
    for p in 0..1280u64 {
        c.mark_dirty(p, 1_000 + p);
    }
    c.request_checkpoint();
    let out = c.poll(0, 0, 5_000);
    assert!(out.started);
    let mut successes = 0;
    while let Some(batch) = c.next_batch() {
        assert_eq!(batch.len(), 256);
        if successes == 2 {
            // Batch 3 of 5: two I/O failures, then success.
            assert!(!c.on_batch_result(false));
            assert!(!c.on_batch_result(false));
        }
        assert!(!c.on_batch_result(true));
        successes += 1;
    }
    assert_eq!(successes, 5, "all five batches must be flushed");
    let rec = c.try_commit(5_000).expect("the run must commit after the retry");
    assert_eq!(rec.begin_lsn, 5_000);
    assert_eq!(rec.end_lsn, 5_000);
    assert_eq!(rec.recovery_lsn, 1_000, "the anchor is the minimum recovery_lsn");
    assert_eq!(c.dirty_page_count(), 0, "all five batches were cleared, not a partial set");
    assert_eq!(c.last_committed_anchor(), Some(rec));
}

#[test]
fn exhausted_retries_abort_without_touching_the_table() {
    let mut c = controller(1000);
    for p in 0..10u64 {
        c.mark_dirty(p, p + 1);
    }
    c.request_checkpoint();
    assert!(c.poll(0, 0, 100).started);
    assert!(c.next_batch().is_some());
    let mut aborted = false;
    for _ in 0..=RETRIES {
        aborted = c.on_batch_result(false);
        if aborted {
            break;
        }
    }
    assert!(aborted, "the retry budget must run out");
    assert!(c.next_batch().is_none(), "an aborted run is gone");
    assert_eq!(c.try_commit(100), None, "an aborted run persists no record");
    assert_eq!(c.dirty_page_count(), 10, "the dirty table is exactly as before the run");
    assert_eq!(c.last_committed_anchor(), None);
}

#[test]
fn pages_dirtied_after_the_snapshot_survive_the_commit() {
    let mut c = controller(1000);
    c.mark_dirty(1, 10);
    c.mark_dirty(2, 20);
    c.request_checkpoint();
    assert!(c.poll(0, 0, 100).started);
    // Page 1 of the snapshot is written again mid-run, and page 3 is
    // dirtied for the first time: both must survive the commit.
    c.mark_dirty(1, 150);
    c.mark_dirty(3, 151);
    while c.next_batch().is_some() {
        assert!(!c.on_batch_result(true));
    }
    let rec = c.try_commit(200).expect("commit");
    assert_eq!(rec.recovery_lsn, 10, "the anchor is the snapshot minimum");
    assert_eq!(
        c.dirty_page_count(),
        2,
        "the re-dirtied snapshot page and the new page stay tracked"
    );
    // Only the untouched snapshot page was cleared: re-marking the two
    // survivors does not grow the table, re-marking the cleared one does.
    c.mark_dirty(1, 300);
    c.mark_dirty(3, 301);
    assert_eq!(c.dirty_page_count(), 2);
    c.mark_dirty(2, 302);
    assert_eq!(c.dirty_page_count(), 3);
}

#[test]
fn async_checkpoint_pipelines_up_to_the_in_flight_bound() {
    // Batch size 256 over 1024 pages with an in-flight bound of 4: four
    // windows may be outstanding before the first completion.
    let mut c = controller(10_000);
    for p in 0..1024u64 {
        c.mark_dirty(p, p + 1);
    }
    c.request_checkpoint();
    assert!(c.poll(0, 0, 5_000).started);
    for _ in 0..4 {
        assert!(c.next_batch().is_some());
    }
    assert!(c.next_batch().is_none(), "the in-flight bound holds");
    assert!(!c.on_batch_result(true));
    assert!(c.next_batch().is_none(), "everything is already submitted");
    for _ in 0..3 {
        assert!(!c.on_batch_result(true));
    }
    let rec = c.try_commit(5_000).expect("commit");
    assert_eq!(rec.recovery_lsn, 1);
    assert_eq!(c.dirty_page_count(), 0);
}

#[test]
fn synchronous_checkpoint_flushes_one_batch_at_a_time() {
    let mut db = db(10_000);
    db.checkpoint.async_checkpoint = false;
    let mut c = CheckpointController::new(db, DEADLINE, WATCHDOG, RETRIES, IN_FLIGHT).unwrap();
    for p in 0..512u64 {
        c.mark_dirty(p, p + 1);
    }
    c.request_checkpoint();
    assert!(c.poll(0, 0, 5_000).started);
    assert!(c.next_batch().is_some());
    assert!(
        c.next_batch().is_none(),
        "without async_checkpoint only one batch may be in flight"
    );
    assert!(!c.on_batch_result(true));
    assert!(c.next_batch().is_some());
}

#[test]
fn zero_in_flight_bound_is_rejected_at_construction() {
    match CheckpointController::new(db(1000), DEADLINE, WATCHDOG, RETRIES, 0) {
        Err(ConfigError::ZeroInFlightLimit) => {},
        other => panic!("expected fail-fast construction, got {:?}", other.is_ok()),
    }
}

#[test]
fn empty_snapshot_checkpoint_commits_immediately() {
    let mut c = controller(1000);
    c.request_checkpoint();
    assert!(c.poll(0, 0, 77).started);
    assert!(c.next_batch().is_none(), "an empty snapshot has no batches");
    let rec = c.try_commit(77).expect("commit");
    assert_eq!(rec.begin_lsn, 77);
    assert_eq!(rec.recovery_lsn, 77);
    assert_eq!(rec.end_lsn, 77);
}

#[test]
fn stuck_hard_limit_escalates_to_fatal_after_the_watchdog_interval() {
    let mut c = controller(10);
    for p in 0..10u64 {
        c.mark_dirty(p, p + 1);
    }
    // 100% dirty: the hard-limit episode begins; a run also starts, but
    // its batches never succeed, so no progress is ever noted.
    let first = c.poll(0, 0, 100);
    assert!(!first.fatal_backpressure, "the watchdog has just started");
    let second = c.poll(WATCHDOG, 0, 100);
    assert!(!second.fatal_backpressure, "the interval has not yet been exceeded");
    let third = c.poll(WATCHDOG + 1, 0, 100);
    assert!(
        third.fatal_backpressure,
        "a hard limit held beyond the watchdog interval is fatal"
    );
}

#[test]
fn committed_checkpoint_resets_the_watchdog() {
    let mut c = controller(10);
    for p in 0..10u64 {
        c.mark_dirty(p, p + 1);
    }
    assert!(c.poll(0, 0, 100).started);
    drive_to_commit(&mut c, 200);
    // Progress was noted; a fresh hard-limit episode starts from scratch.
    for p in 10..20u64 {
        c.mark_dirty(p, 200 + p);
    }
    let out = c.poll(WATCHDOG + 1, 0, 300);
    assert!(
        !out.fatal_backpressure,
        "the episode restarted after the committed checkpoint"
    );
}

#[test]
fn recovery_anchor_is_exposed_to_recovery() {
    let mut c = controller(1000);
    assert_eq!(c.last_committed_anchor(), None);
    c.mark_dirty(5, 42);
    c.request_checkpoint();
    assert!(c.poll(0, 0, 50).started);
    let rec = drive_to_commit(&mut c, 60);
    assert_eq!(rec.recovery_lsn, 42);
    assert_eq!(c.last_committed_anchor(), Some(rec));
}
