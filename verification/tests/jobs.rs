use copymaster::config::{ConflictAction, GlobalConflictResolution};
use copymaster::copy_engine::CopyOptions;
use copymaster::device_queue::{
    flatten_items, DeviceQueue, ItemTransferStatus, ItemType, QueuePriority, TransferItem,
    TransferJob, TransferStatus,
};
use copymaster::drag_drop::TransferResult;
use copymaster::error_recovery::CopyError;
use copymaster::local_engine::{CopyPlan, LocalCopyEngine};

fn file(path: &str, size: u64) -> TransferItem {
    TransferItem {
        source_path: String::from(path),
        relative_path: String::from(path),
        item_type: ItemType::File,
        size,
        children: Vec::new(),
        status: ItemTransferStatus::Pending,
    }
}

fn dir(path: &str, children: Vec<TransferItem>) -> TransferItem {
    TransferItem {
        source_path: String::from(path),
        relative_path: String::from(path),
        item_type: ItemType::Directory,
        size: 0,
        children,
        status: ItemTransferStatus::Pending,
    }
}

fn policy(action: ConflictAction, ask: bool) -> GlobalConflictResolution {
    GlobalConflictResolution {
        default_action: action,
        ask_for_confirmation: ask,
        rename_pattern: String::from("{name} ({counter})"),
    }
}

#[test]
fn three_item_job_runs_to_completion_in_order() {
    // Two files and one directory with a child inside one of them: the
    // directory must be worked before its child.
    let items = vec![dir("pics", vec![file("pics/a.jpg", 500)]), file("notes.txt", 100)];
    let job = TransferJob::new(
        1,
        items,
        String::from("/mnt/usb/backup"),
        String::from("backup"),
        QueuePriority::Normal,
        0,
        false,
    );
    assert!(matches!(job.status, TransferStatus::Queued));

    let mut queue = DeviceQueue::new(String::from("/mnt/usb"), 0);
    queue.enqueue(job);
    assert_eq!(queue.next(), Some(1));
    let job = queue.current_transfer.as_mut().expect("the job should be current");

    job.prepare();
    assert!(matches!(job.status, TransferStatus::Preparing));
    assert_eq!(job.total_items, 3);
    assert_eq!(job.total_size, 600);

    job.start_copying();
    assert!(matches!(job.status, TransferStatus::Copying));

    let order = flatten_items(&job.root_items);
    assert_eq!(order.len(), 3);
    assert_eq!(order[0].source_path, "pics");
    assert!(matches!(order[0].item_type, ItemType::Directory));
    assert_eq!(order[1].source_path, "pics/a.jpg");
    assert_eq!(order[2].source_path, "notes.txt");
    let sizes: Vec<u64> = order.iter().map(|i| i.size).collect();

    for size in sizes {
        job.mark_item_completed(size);
    }
    assert_eq!(job.completed_items, 3);
    assert_eq!(job.copied_size, 600);

    job.complete();
    assert!(matches!(job.status, TransferStatus::Completed));

    let mut result = TransferResult::new(1);
    result.status = TransferStatus::Completed;
    result.total_bytes = 600;
    queue.complete_current(result, 50);
    assert!(queue.current_transfer.is_none());
    assert_eq!(queue.stats.successful_transfers, 1);
}

#[test]
fn work_order_keeps_directories_before_their_descendants() {
    let tree = vec![
        dir(
            "a",
            vec![dir("a/b", vec![file("a/b/c.txt", 1)]), file("a/d.txt", 2)],
        ),
        file("e.txt", 3),
    ];
    let order = flatten_items(&tree);
    let paths: Vec<&str> = order.iter().map(|i| i.source_path.as_str()).collect();
    assert_eq!(paths, vec!["a", "a/b", "a/b/c.txt", "a/d.txt", "e.txt"]);
}

#[test]
fn collision_with_no_channel_and_confirmation_required_is_cancelled() {
    // One file that collides, global policy asks for confirmation, no
    // decision channel attached: the item is aborted, never overwritten.
    let job = TransferJob::new(
        2,
        vec![file("a.txt", 10)],
        String::from("/mnt/usb"),
        String::from("drop"),
        QueuePriority::Normal,
        0,
        false,
    );
    let engine = LocalCopyEngine::new(CopyOptions::default());
    let existing = vec![String::from("a.txt")];
    let plan = engine.plan_copy_with_conflict_handling(
        &job,
        &policy(ConflictAction::Ask, true),
        true,
        "a.txt",
        &existing,
        7,
    );
    assert!(matches!(plan, CopyPlan::AbortItem));
}

#[test]
fn no_collision_is_a_plain_copy() {
    let job = TransferJob::new(
        3,
        vec![file("a.txt", 10)],
        String::from("/mnt/usb"),
        String::from("drop"),
        QueuePriority::Normal,
        0,
        false,
    );
    let engine = LocalCopyEngine::new(CopyOptions::default());
    let plan = engine.plan_copy_with_conflict_handling(
        &job,
        &policy(ConflictAction::Ask, true),
        false,
        "a.txt",
        &Vec::new(),
        7,
    );
    match plan {
        CopyPlan::CopyTo { destination, overwrite } => {
            assert_eq!(destination, "a.txt");
            assert!(!overwrite);
        }
        other => panic!("expected a plain copy, got another plan: {}", plan_kind(&other)),
    }
}

#[test]
fn rename_new_plans_a_fresh_destination() {
    let mut job = TransferJob::new(
        4,
        vec![file("a.txt", 10)],
        String::from("/mnt/usb"),
        String::from("drop"),
        QueuePriority::Normal,
        0,
        false,
    );
    job.update_conflict_settings(ConflictAction::RenameNew, false);
    let engine = LocalCopyEngine::new(CopyOptions::default());
    let existing = vec![String::from("a.txt")];
    let plan = engine.plan_copy_with_conflict_handling(
        &job,
        &policy(ConflictAction::Ask, true),
        true,
        "a.txt",
        &existing,
        7,
    );
    match plan {
        CopyPlan::CopyToRenamed { new_destination } => {
            assert_eq!(new_destination, "a (1).txt");
        }
        other => panic!("expected a renamed copy, got another plan: {}", plan_kind(&other)),
    }
}

#[test]
fn rename_old_plans_moving_the_existing_file_aside() {
    let engine = LocalCopyEngine::new(CopyOptions::default());
    let existing = vec![String::from("a.txt")];
    let plan = engine.plan_for_resolution(
        &copymaster::device_queue::ConflictResolutionResult::RenameOld,
        "a.txt",
        &existing,
        7,
    );
    match plan {
        CopyPlan::RenameOldThenCopy { renamed_old, destination } => {
            assert_eq!(renamed_old, "a (1).txt");
            assert_eq!(destination, "a.txt");
        }
        other => panic!("expected the old file renamed, got another plan: {}", plan_kind(&other)),
    }
}

#[test]
fn pause_suspends_between_items_and_resume_picks_up() {
    let mut job = TransferJob::new(
        8,
        vec![file("a.txt", 10), file("b.txt", 20)],
        String::from("/mnt/usb"),
        String::from("drop"),
        QueuePriority::Normal,
        0,
        false,
    );
    job.prepare();
    job.start_copying();
    job.mark_item_completed(10);
    job.pause();
    assert!(matches!(job.status, TransferStatus::Paused));
    assert_eq!(job.completed_items, 1);
    job.resume();
    assert!(matches!(job.status, TransferStatus::Copying));
    job.mark_item_completed(20);
    job.begin_verifying();
    assert!(matches!(job.status, TransferStatus::Verifying));
    job.complete();
    assert!(matches!(job.status, TransferStatus::Completed));
}

#[test]
fn items_added_to_a_running_job_raise_the_totals() {
    let mut job = TransferJob::new(
        7,
        vec![file("a.txt", 100)],
        String::from("/mnt/usb"),
        String::from("drop"),
        QueuePriority::Normal,
        0,
        false,
    );
    job.prepare();
    job.start_copying();
    assert_eq!(job.total_items, 1);
    job.add_items(vec![dir("extra", vec![file("extra/b.txt", 50)])]);
    assert_eq!(job.total_items, 3);
    assert_eq!(job.total_size, 150);
    assert_eq!(job.root_items.len(), 2);
    assert!(matches!(job.status, TransferStatus::Copying));
}

#[test]
fn cancellation_mid_copy_ends_the_job() {
    let mut job = TransferJob::new(
        5,
        vec![file("a.txt", 10), file("b.txt", 10)],
        String::from("/mnt/usb"),
        String::from("drop"),
        QueuePriority::Normal,
        0,
        false,
    );
    job.prepare();
    job.start_copying();
    job.mark_item_completed(10);
    job.record_item_error(&CopyError::Cancelled, String::from("unused"));
    assert!(matches!(job.status, TransferStatus::Cancelled));
    assert!(job.errors.is_empty());
}

#[test]
fn ordinary_errors_accumulate_and_the_job_goes_on() {
    let mut job = TransferJob::new(
        6,
        vec![file("a.txt", 10), file("b.txt", 10)],
        String::from("/mnt/usb"),
        String::from("drop"),
        QueuePriority::Normal,
        0,
        false,
    );
    job.prepare();
    job.start_copying();
    let err = CopyError::Io(String::from("short read"));
    job.record_item_error(&err, err.message());
    assert!(matches!(job.status, TransferStatus::Copying));
    assert_eq!(job.errors, vec![String::from("IO error: short read")]);
    job.mark_item_completed(10);
    assert_eq!(job.completed_items, 1);
}

fn plan_kind(plan: &CopyPlan) -> &'static str {
    match plan {
        CopyPlan::CopyTo { .. } => "CopyTo",
        CopyPlan::SkipItem => "SkipItem",
        CopyPlan::CopyToRenamed { .. } => "CopyToRenamed",
        CopyPlan::RenameOldThenCopy { .. } => "RenameOldThenCopy",
        CopyPlan::NeedDecision => "NeedDecision",
        CopyPlan::AbortItem => "AbortItem",
    }
}
