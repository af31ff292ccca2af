use filezoom::atomic::{
    copy_temp_name, is_temp_artifact, write_temp_name, AtomicCommit, CommitAction, FaultInjection,
    MoveAction, RenameOrCopy,
};
use filezoom::coordinator::{CoordinationError, Decision, Resolution, Worker, WorkerStep};
use filezoom::metadata::{
    classify_step, is_critical, metadata_target, next_step, replication_result,
    replication_scope, strip_prefix, MetaScope, MetaStep, PosixAcl, StepOutcome,
};
use filezoom::tree::{plan_tree_copy, WalkEntry, WalkKind};

#[test]
fn acquire_lock_multiple_times() {
    let mut hooks = FaultInjection::new();
    {
        let _g = hooks.acquire_test_lock();
    }
    let _g2 = hooks.acquire_test_lock();
    drop(_g2);
}

#[test]
fn feature_flags_toggle() {
    let mut hooks = FaultInjection::new();
    hooks.set_force_rename_fail_in_copy(true);
    assert!(hooks.should_force_rename_fail_in_copy());
    hooks.set_force_rename_fail_in_copy(false);
    assert!(!hooks.should_force_rename_fail_in_copy());

    hooks.set_force_rename_fail_in_write(true);
    assert!(hooks.should_force_rename_fail_in_write());
    hooks.set_force_rename_fail_in_write(false);
    assert!(!hooks.should_force_rename_fail_in_write());

    hooks.set_force_rename_fail_in_rename_or_copy(true);
    assert!(hooks.should_force_rename_fail_in_rename_or_copy());
    hooks.set_force_rename_fail_in_rename_or_copy(false);
    assert!(!hooks.should_force_rename_fail_in_rename_or_copy());
}

#[test]
fn non_feature_defaults() {
    let hooks = FaultInjection::new();
    assert!(!hooks.should_force_rename_fail_in_copy());
    assert!(!hooks.should_force_rename_fail_in_write());
    assert!(!hooks.should_force_rename_fail_in_rename_or_copy());
}

#[test]
fn temp_names_take_the_tail_of_the_entropy() {
    // pid 0x1f, clock 0xabc: "1fabc" is shorter than eight characters.
    assert_eq!(write_temp_name(0x1f, 0xabc), ".tmp_atomic_write.1fabc");
    // "12345678" + "9abcdef0" keeps the last eight characters.
    assert_eq!(write_temp_name(0x1234_5678, 0x9abc_def0), ".tmp_atomic_write.9abcdef0");
    assert_eq!(copy_temp_name(1, 2, 3, 0x4567_89ab_cdef), ".tmp_atomic_copy.456789abcdef");
    assert_eq!(copy_temp_name(0xa, 0, 0, 0), ".tmp_atomic_copy.a000");
}

#[test]
fn atomic_copy_file_parallel_no_temp_collision() {
    // 64 copies in the same instant from the same thread differ by sequence.
    let names: Vec<String> = (0..64u64).map(|s| copy_temp_name(42, 1_000, 7, s)).collect();
    let mut sorted = names.clone();
    sorted.sort();
    sorted.dedup();
    assert_eq!(sorted.len(), 64);
    assert!(names.iter().all(|n| is_temp_artifact(n)));
    assert!(!is_temp_artifact("file_1.txt"));
    assert!(!is_temp_artifact(".tmp_atomic_cop"));
}

#[test]
fn commit_succeeds_on_write_and_rename() {
    let (mut c, a) = AtomicCommit::start(false);
    assert_eq!(a, CommitAction::WriteTemp);
    assert_eq!(c.on_written(true), CommitAction::RenameTemp);
    assert_eq!(c.on_renamed(true), CommitAction::Succeed);
}

#[test]
fn commit_cleans_up_after_rename_failure() {
    let (mut c, _) = AtomicCommit::start(false);
    assert_eq!(c.on_written(true), CommitAction::RenameTemp);
    assert_eq!(c.on_renamed(false), CommitAction::RemoveTemp);
    assert_eq!(c.on_removed(), CommitAction::Fail);
}

#[test]
fn commit_cleans_up_after_write_failure_and_forced_rename_failure() {
    let (mut c, _) = AtomicCommit::start(false);
    assert_eq!(c.on_written(false), CommitAction::RemoveTemp);
    assert_eq!(c.on_removed(), CommitAction::Fail);

    let mut hooks = FaultInjection::new();
    hooks.set_force_rename_fail_in_write(true);
    let (mut c, _) = AtomicCommit::start(hooks.should_force_rename_fail_in_write());
    assert_eq!(c.on_written(true), CommitAction::RemoveTemp);
    assert_eq!(c.on_removed(), CommitAction::Fail);
}

#[test]
fn rename_fallback_for_forced_failure() {
    // A forced rename failure on a file goes straight to copy and remove.
    let (mut m, a) = RenameOrCopy::start(true, false);
    assert_eq!(a, MoveAction::CopyFile);
    assert_eq!(m.on_copied(true), MoveAction::RemoveFile);
    assert_eq!(m.on_removed(true), MoveAction::Succeed);
}

#[test]
fn rename_fallback_for_directories_and_failures() {
    let (mut m, a) = RenameOrCopy::start(false, true);
    assert_eq!(a, MoveAction::Rename);
    assert_eq!(m.on_renamed(false), MoveAction::CopyTree);
    assert_eq!(m.on_copied(true), MoveAction::RemoveTree);
    assert_eq!(m.on_removed(true), MoveAction::Succeed);

    let (mut m, _) = RenameOrCopy::start(false, false);
    assert_eq!(m.on_renamed(true), MoveAction::Succeed);

    let (mut m, _) = RenameOrCopy::start(false, false);
    assert_eq!(m.on_renamed(false), MoveAction::CopyFile);
    assert_eq!(m.on_copied(false), MoveAction::Fail);
}

#[test]
fn overwrite_all_batches_collisions() {
    let n = 5usize;
    let mut w = Worker::new(n);
    let mut asks = 0;
    let mut writes = 0;
    let mut decisions = vec![Decision::OverwriteAll].into_iter();
    loop {
        let step = w.poll(false, true);
        match step {
            WorkerStep::Ask(_) => {
                asks += 1;
                match w.resolve(decisions.next().expect("one decision")) {
                    WorkerStep::Write(_) => writes += 1,
                    other => panic!("unexpected {:?}", other),
                }
            }
            WorkerStep::Write(_) => writes += 1,
            WorkerStep::SkipItem(_) => panic!("nothing is skipped"),
            WorkerStep::Finish => break,
        }
    }
    assert_eq!(asks, 1);
    assert_eq!(writes, n);
    assert_eq!(w.blanket, Some(Resolution::Overwrite));
    assert!(w.is_finished());
}

#[test]
fn skip_all_and_plain_decisions() {
    let mut w = Worker::new(3);
    assert_eq!(w.poll(false, true), WorkerStep::Ask(0));
    assert!(w.awaiting_decision());
    assert_eq!(w.resolve(Decision::Skip), WorkerStep::SkipItem(0));
    assert_eq!(w.poll(false, false), WorkerStep::Write(1));
    assert_eq!(w.poll(false, true), WorkerStep::Ask(2));
    assert_eq!(w.resolve(Decision::SkipAll), WorkerStep::SkipItem(2));
    assert_eq!(w.poll(false, true), WorkerStep::Finish);
    assert_eq!(w.processed, 3);
}

#[test]
fn cancellation_stops_new_writes() {
    let mut w = Worker::new(4);
    assert_eq!(w.poll(false, false), WorkerStep::Write(0));
    assert_eq!(w.poll(true, false), WorkerStep::Finish);
    assert_eq!(w.poll(false, false), WorkerStep::Finish);
    assert_eq!(w.processed, 1);

    let mut w = Worker::new(2);
    assert_eq!(w.poll(false, true), WorkerStep::Ask(0));
    assert_eq!(w.resolve(Decision::Cancel), WorkerStep::Finish);
    assert_eq!(w.poll(false, false), WorkerStep::Finish);
    assert_eq!(w.processed, 0);
}

#[test]
fn metadata_policy() {
    assert!(is_critical(MetaScope::SingleFile, MetaStep::Permissions));
    assert!(is_critical(MetaScope::SingleFile, MetaStep::Timestamps));
    assert!(!is_critical(MetaScope::SingleFile, MetaStep::Ownership));
    assert!(!is_critical(MetaScope::Tree, MetaStep::Permissions));
    assert_eq!(classify_step(MetaScope::SingleFile, MetaStep::Acl, false), StepOutcome::Ignore);
    assert_eq!(classify_step(MetaScope::SingleFile, MetaStep::Timestamps, false), StepOutcome::Abort);
    assert_eq!(classify_step(MetaScope::Tree, MetaStep::Timestamps, true), StepOutcome::Continue);
    assert_eq!(next_step(MetaStep::Permissions), Some(MetaStep::Timestamps));
    assert_eq!(next_step(MetaStep::Acl), None);
    assert_eq!(
        replication_result(MetaScope::SingleFile, &vec![MetaStep::Ownership, MetaStep::Timestamps]),
        Err(MetaStep::Timestamps)
    );
    assert_eq!(replication_result(MetaScope::Tree, &vec![MetaStep::Permissions]), Ok(()));
    assert_eq!(replication_scope(true, false, true), None);
    assert_eq!(replication_scope(true, true, true), Some(MetaScope::SingleFile));
    assert_eq!(replication_scope(true, true, false), Some(MetaScope::Tree));
}

#[test]
fn metadata_targets_mirror_relative_paths() {
    assert_eq!(strip_prefix("/src/a/b", "/src"), Some("a/b".to_string()));
    assert_eq!(strip_prefix("/srcx/a", "/src"), None);
    assert_eq!(metadata_target("/src/a/b", "/src", "/dst"), Some("/dst/a/b".to_string()));
    assert_eq!(metadata_target("/other/a", "/src", "/dst"), None);
}

#[test]
fn roundtrip_acl_xattrs() {
    let acl = PosixAcl::from_blobs(Some(vec![1, 2, 3, 4]), Some(vec![5, 6, 7])).unwrap();
    assert_eq!(acl.access, Some(vec![1, 2, 3, 4]));
    assert_eq!(acl.default, Some(vec![5, 6, 7]));
    assert_eq!(PosixAcl::from_blobs(None, None), None);
}

fn walk(rel: &str, kind: WalkKind) -> WalkEntry {
    WalkEntry { rel: rel.to_string(), kind }
}

#[test]
fn tree_plan_mirrors_files_and_directories() {
    let entries = vec![
        walk("b", WalkKind::Directory),
        walk("b/x.txt", WalkKind::File),
        walk("a", WalkKind::Directory),
        walk("a/c", WalkKind::Directory),
        walk("a/c/y.txt", WalkKind::File),
        walk("sock", WalkKind::Other),
        walk("a", WalkKind::Directory),
    ];
    let plan = plan_tree_copy("/src", "/dst", &entries);
    assert_eq!(plan.dirs, vec!["/dst/a".to_string(), "/dst/a/c".to_string(), "/dst/b".to_string()]);
    let files: Vec<(String, String)> = plan.files.iter().map(|f| (f.from.clone(), f.to.clone())).collect();
    assert_eq!(
        files,
        vec![
            ("/src/b/x.txt".to_string(), "/dst/b/x.txt".to_string()),
            ("/src/a/c/y.txt".to_string(), "/dst/a/c/y.txt".to_string()),
        ]
    );
}

#[test]
fn tree_plan_for_many_flat_files() {
    let entries: Vec<WalkEntry> =
        (0..64).map(|i| walk(&format!("file_{}.txt", i), WalkKind::File)).collect();
    let plan = plan_tree_copy("/A", "/B", &entries);
    assert!(plan.dirs.is_empty());
    assert_eq!(plan.files.len(), 64);
    let mut targets: Vec<String> = plan.files.iter().map(|f| f.to.clone()).collect();
    targets.sort();
    targets.dedup();
    assert_eq!(targets.len(), 64);
    assert!(targets.iter().all(|t| t.starts_with("/B/file_")));
}

#[test]
fn decision_without_collision_is_a_protocol_violation() {
    let mut w = Worker::new(2);
    assert_eq!(w.offer_decision(Decision::Overwrite), Err(CoordinationError::ProtocolViolation));
    assert_eq!(w.processed, 0);
    assert_eq!(w.poll(false, true), WorkerStep::Ask(0));
    assert_eq!(w.offer_decision(Decision::Overwrite), Ok(WorkerStep::Write(0)));
}

#[test]
fn atomic_copy_file_stress_many_concurrent_copies() {
    // 1024 copies to 16 destination names: every staging name is distinct
    // and recognisable as a staging file, none is a destination name.
    let tasks = 1024u64;
    let names: Vec<String> = (0..tasks).map(|s| copy_temp_name(4242, 99_999, 0xdead_beef, s)).collect();
    let mut sorted = names.clone();
    sorted.sort();
    sorted.dedup();
    assert_eq!(sorted.len(), 1024);
    assert!(names.iter().all(|n| is_temp_artifact(n)));
    let dests: Vec<String> = (0..16).map(|i| format!("dst_{}.txt", i)).collect();
    assert!(dests.iter().all(|d| !is_temp_artifact(d)));
}
