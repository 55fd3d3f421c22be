use checkpoint_ctl::batcher::IoBatcher;
use checkpoint_ctl::executor::{CheckpointRun, RunStatus};
use checkpoint_ctl::monitor::WalSizeMonitor;
use checkpoint_ctl::scheduler::{CheckpointScheduler, SchedulerState, TriggerKind};
use checkpoint_ctl::tracker::DirtyPageTracker;

// --- Dirty Page Tracker ---

#[test]
fn tracker_starts_empty() {
    let t = DirtyPageTracker::new();
    assert_eq!(t.dirty_count(), 0);
    assert!(!t.contains_page(7));
}

#[test]
fn mark_dirty_tracks_a_page_once() {
    let mut t = DirtyPageTracker::new();
    t.mark_dirty(7, 100);
    t.mark_dirty(7, 200);
    t.mark_dirty(7, 300);
    assert_eq!(t.dirty_count(), 1);
    assert!(t.contains_page(7));
    // First-dirty semantics: the recovery_lsn stays at the first dirtying.
    let snap = t.snapshot();
    assert_eq!(snap.entries.len(), 1);
    assert_eq!(snap.entries[0].page_id, 7);
    assert_eq!(snap.entries[0].recovery_lsn, 100);
}

#[test]
fn mark_dirty_tracks_distinct_pages() {
    let mut t = DirtyPageTracker::new();
    t.mark_dirty(1, 10);
    t.mark_dirty(2, 20);
    t.mark_dirty(3, 30);
    t.mark_dirty(2, 99);
    assert_eq!(t.dirty_count(), 3);
    let snap = t.snapshot();
    let mut seen = Vec::new();
    for e in snap.entries.iter() {
        assert!(!seen.contains(&e.page_id), "duplicate page id in tracker");
        seen.push(e.page_id);
    }
    assert_eq!(snap.entries[1].page_id, 2);
    assert_eq!(snap.entries[1].recovery_lsn, 20);
}

#[test]
fn snapshot_copies_the_table_and_version() {
    let mut t = DirtyPageTracker::new();
    t.mark_dirty(1, 10);
    t.mark_dirty(2, 20);
    let snap = t.snapshot();
    assert_eq!(snap.entries.len(), 2);
    assert_eq!(snap.version, 2);
    // Later mutations do not touch the copy.
    t.mark_dirty(3, 30);
    assert_eq!(snap.entries.len(), 2);
}

#[test]
fn clear_flushed_removes_only_snapshotted_pages() {
    let mut t = DirtyPageTracker::new();
    t.mark_dirty(1, 10);
    t.mark_dirty(2, 20);
    let snap = t.snapshot();
    // Page 3 becomes dirty after the snapshot: its version is newer.
    t.mark_dirty(3, 30);
    let flushed: Vec<u64> = snap.entries.iter().map(|e| e.page_id).collect();
    t.clear_flushed(&flushed, snap.version);
    assert!(!t.contains_page(1));
    assert!(!t.contains_page(2));
    assert!(t.contains_page(3));
    assert_eq!(t.dirty_count(), 1);
}

#[test]
fn redirtied_page_survives_clear_with_new_lsn() {
    let mut t = DirtyPageTracker::new();
    t.mark_dirty(1, 10);
    t.mark_dirty(2, 20);
    let snap = t.snapshot();
    // Page 2 is flushed mid-run and cleaned, then re-dirtied at a later
    // log position: it gets a fresh entry with a newer version.
    let just_two: Vec<u64> = vec![2];
    t.clear_flushed(&just_two, snap.version);
    t.mark_dirty(2, 50);
    // The run commits and clears its whole snapshot.
    let flushed: Vec<u64> = snap.entries.iter().map(|e| e.page_id).collect();
    t.clear_flushed(&flushed, snap.version);
    assert!(!t.contains_page(1));
    assert!(t.contains_page(2), "re-dirtied page was erroneously cleared");
    let after = t.snapshot();
    assert_eq!(after.entries.len(), 1);
    assert_eq!(after.entries[0].page_id, 2);
    assert_eq!(after.entries[0].recovery_lsn, 50);
}

// --- WAL Size Monitor ---

#[test]
fn monitor_fires_once_per_crossing() {
    let mut m = WalSizeMonitor::new(1000);
    assert!(!m.observe(999));
    assert!(m.observe(1000), "reaching the ceiling must fire");
    assert!(!m.observe(1500), "still over: edge-triggered, no refire");
    assert!(!m.observe(999), "dropping back fires nothing");
    assert!(m.observe(2000), "a second crossing fires again");
}

// --- Checkpoint Scheduler ---

#[test]
fn first_trigger_starts_immediately() {
    let mut s = CheckpointScheduler::new(5_000, 60_000);
    assert_eq!(s.current_state(), SchedulerState::Idle);
    s.on_trigger(TriggerKind::WalSizeExceeded);
    assert_eq!(s.current_state(), SchedulerState::Triggered);
    assert!(s.try_start(0));
    assert_eq!(s.current_state(), SchedulerState::Running);
}

#[test]
fn coalesced_triggers_start_one_run_at_the_cooldown_mark() {
    // Two triggers 2 seconds apart under a 5-second minimum interval:
    // exactly one further run, starting at the 5-second mark.
    let mut s = CheckpointScheduler::new(5_000, 60_000);
    s.on_trigger(TriggerKind::DirtySoftLimit);
    assert!(s.try_start(0));
    s.on_run_complete();
    assert_eq!(s.current_state(), SchedulerState::CoolingDown);
    s.on_trigger(TriggerKind::DirtySoftLimit);
    s.on_trigger(TriggerKind::WalSizeExceeded);
    s.tick(2_000);
    assert!(!s.try_start(2_000), "cooldown must hold the trigger back");
    s.tick(4_999);
    assert!(!s.try_start(4_999));
    s.tick(5_000);
    assert_eq!(s.current_state(), SchedulerState::Triggered);
    assert!(s.try_start(5_000), "the deferred run starts at the 5-second mark");
    // Both triggers were coalesced: completing leaves nothing deferred.
    s.on_run_complete();
    s.tick(10_000);
    assert_eq!(s.current_state(), SchedulerState::Idle);
}

#[test]
fn external_request_bypasses_the_spacing_gate() {
    let mut s = CheckpointScheduler::new(5_000, 60_000);
    s.on_trigger(TriggerKind::ExternalRequest);
    assert!(s.try_start(0));
    s.on_run_complete();
    s.tick(5_000);
    s.on_trigger(TriggerKind::ExternalRequest);
    // Only 1 ms after the cooldown: an ordinary trigger would wait.
    assert!(s.try_start(5_001));
}

#[test]
fn staleness_timer_arms_after_max_interval() {
    let mut s = CheckpointScheduler::new(5_000, 60_000);
    s.on_trigger(TriggerKind::DirtySoftLimit);
    assert!(s.try_start(0));
    s.on_run_complete();
    s.tick(5_000);
    assert_eq!(s.current_state(), SchedulerState::Idle);
    s.tick(59_999);
    assert_eq!(s.current_state(), SchedulerState::Idle);
    s.tick(60_000);
    assert_eq!(s.current_state(), SchedulerState::Triggered);
    assert!(s.try_start(60_000));
}

// --- Checkpoint Executor ---

fn snapshot_of(t: &mut DirtyPageTracker, pages: &[(u64, u64)]) -> checkpoint_ctl::tracker::TrackerSnapshot {
    for (p, lsn) in pages.iter() {
        t.mark_dirty(*p, *lsn);
    }
    t.snapshot()
}

#[test]
fn run_computes_the_minimum_recovery_lsn() {
    let mut t = DirtyPageTracker::new();
    let snap = snapshot_of(&mut t, &[(1, 42), (2, 17), (3, 99)]);
    let mut run = CheckpointRun::start(snap, 100, 2, 3, 1);
    assert_eq!(run.status_now(), RunStatus::Running);
    assert_eq!(run.begin_lsn_now(), 100);
    // Batches of 2 over 3 entries: 2 batches.
    let b1 = run.next_submission().expect("first batch");
    assert_eq!(b1, vec![1, 2]);
    assert!(run.next_submission().is_none(), "sequential: one batch in flight");
    run.on_batch_success();
    let b2 = run.next_submission().expect("second batch");
    assert_eq!(b2, vec![3]);
    run.on_batch_success();
    assert_eq!(run.status_now(), RunStatus::Committing);
    assert_eq!(run.batches_flushed_now(), 2);
    let rec = run.commit(150);
    assert_eq!(rec.begin_lsn, 100);
    assert_eq!(rec.recovery_lsn, 17);
    assert_eq!(rec.end_lsn, 150);
    assert!(rec.recovery_lsn <= rec.begin_lsn && rec.begin_lsn <= rec.end_lsn);
    assert_eq!(run.status_now(), RunStatus::Committed);
}

#[test]
fn async_run_keeps_several_batches_in_flight() {
    let mut t = DirtyPageTracker::new();
    let snap = snapshot_of(&mut t, &[(1, 10), (2, 20), (3, 30), (4, 40), (5, 50)]);
    // Batches of 2 over 5 entries, up to 2 in flight.
    let mut run = CheckpointRun::start(snap, 100, 2, 3, 2);
    assert_eq!(run.next_submission().expect("batch 1"), vec![1, 2]);
    assert_eq!(run.next_submission().expect("batch 2 pipelined"), vec![3, 4]);
    assert_eq!(run.in_flight_now(), 2);
    assert!(run.next_submission().is_none(), "the in-flight bound holds");
    // The oldest batch completes; room opens for the next one.
    run.on_batch_success();
    assert_eq!(run.in_flight_now(), 1);
    assert_eq!(run.next_submission().expect("batch 3"), vec![5]);
    run.on_batch_success();
    run.on_batch_success();
    assert_eq!(run.status_now(), RunStatus::Committing);
    assert_eq!(run.batches_flushed_now(), 3);
}

#[test]
fn empty_snapshot_commits_with_begin_as_anchor() {
    let t = DirtyPageTracker::new();
    let snap = t.snapshot();
    let mut run = CheckpointRun::start(snap, 500, 256, 3, 1);
    assert_eq!(run.status_now(), RunStatus::Committing);
    assert!(run.next_submission().is_none());
    let rec = run.commit(500);
    assert_eq!(rec.recovery_lsn, 500);
    assert_eq!(rec.begin_lsn, 500);
    assert_eq!(rec.end_lsn, 500);
}

#[test]
fn failed_batch_is_retried_within_budget() {
    let mut t = DirtyPageTracker::new();
    let snap = snapshot_of(&mut t, &[(1, 10), (2, 20), (3, 30)]);
    let mut run = CheckpointRun::start(snap, 100, 1, 2, 1);
    assert_eq!(run.next_submission().expect("batch 1"), vec![1]);
    run.on_batch_success();
    // The second batch fails twice, then succeeds on the third attempt.
    assert_eq!(run.next_submission().expect("batch 2"), vec![2]);
    assert!(!run.on_batch_failure());
    assert!(!run.on_batch_failure());
    assert_eq!(run.status_now(), RunStatus::Running);
    let retried = run.next_submission().expect("the retry");
    assert_eq!(retried, vec![2], "the same batch is retried");
    run.on_batch_success();
    assert_eq!(run.next_submission().expect("batch 3"), vec![3]);
    run.on_batch_success();
    assert_eq!(run.status_now(), RunStatus::Committing);
    assert_eq!(run.batches_flushed_now(), 3);
}

#[test]
fn partial_batch_failure_retries_only_the_failed_pages() {
    let mut t = DirtyPageTracker::new();
    let snap = snapshot_of(&mut t, &[(1, 10), (2, 20), (3, 30), (4, 40)]);
    let mut run = CheckpointRun::start(snap, 100, 3, 2, 1);
    assert_eq!(run.next_submission().expect("batch 1"), vec![1, 2, 3]);
    // Pages 1 and 3 of the batch fail; only they are resubmitted.
    let failed: Vec<u64> = vec![1, 3];
    assert!(!run.on_partial_failure(&failed));
    assert_eq!(run.next_submission().expect("the retry"), vec![1, 3]);
    run.on_batch_success();
    assert_eq!(run.next_submission().expect("batch 2"), vec![4]);
    run.on_batch_success();
    assert_eq!(run.status_now(), RunStatus::Committing);
}

#[test]
fn exhausted_retries_abort_the_run() {
    let mut t = DirtyPageTracker::new();
    let snap = snapshot_of(&mut t, &[(1, 10)]);
    let mut run = CheckpointRun::start(snap, 100, 1, 1, 1);
    assert_eq!(run.next_submission().expect("the batch"), vec![1]);
    assert!(!run.on_batch_failure());
    assert!(run.on_batch_failure(), "the retry budget is exhausted");
    assert_eq!(run.status_now(), RunStatus::Aborted);
    assert!(run.next_submission().is_none(), "an aborted run submits nothing");
}

// --- Async I/O Batcher ---

#[test]
fn batcher_bounds_in_flight_submissions() {
    let mut b = IoBatcher::new(2);
    assert!(b.is_drained());
    assert!(b.can_submit());
    let h1 = b.submit();
    let h2 = b.submit();
    assert_ne!(h1, h2);
    assert_eq!(b.in_flight_count(), 2);
    assert!(!b.can_submit(), "the in-flight bound is reached");
    assert!(b.complete(h1));
    assert!(b.can_submit());
    assert!(!b.complete(h1), "a completion is reported once");
    assert!(b.complete(h2));
    assert!(b.is_drained());
}

#[test]
fn sequential_batcher_allows_one_in_flight() {
    let mut b = IoBatcher::new(1);
    let h = b.submit();
    assert!(!b.can_submit());
    assert!(b.complete(h));
    assert!(b.can_submit());
}
