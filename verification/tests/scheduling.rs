use copymaster::device_queue::{
    DeviceQueue, QueuePriority, QueueStatus, TransferJob, TransferStatus,
};
use copymaster::drag_drop::TransferResult;

fn job(id: u64, priority: QueuePriority, created_at_ms: u64) -> TransferJob {
    TransferJob::new(
        id,
        Vec::new(),
        String::from("/mnt/usb/dest"),
        format!("job-{}", id),
        priority,
        created_at_ms,
        false,
    )
}

#[test]
fn higher_priority_dequeued_first_regardless_of_age() {
    let mut q = DeviceQueue::new(String::from("/mnt/usb"), 0);
    q.enqueue(job(1, QueuePriority::Normal, 100));
    q.enqueue(job(2, QueuePriority::Critical, 200));
    q.enqueue(job(3, QueuePriority::Background, 10));
    assert_eq!(q.next(), Some(2));
    assert!(matches!(q.status, QueueStatus::Active));
}

#[test]
fn equal_priority_breaks_ties_by_earlier_creation() {
    let mut q = DeviceQueue::new(String::from("/mnt/usb"), 0);
    q.enqueue(job(1, QueuePriority::Normal, 500));
    q.enqueue(job(2, QueuePriority::Normal, 50));
    q.enqueue(job(3, QueuePriority::Normal, 300));
    assert_eq!(q.next(), Some(2));
    q.complete_current(TransferResult::new(2), 1000);
    assert_eq!(q.next(), Some(3));
    q.complete_current(TransferResult::new(3), 1100);
    assert_eq!(q.next(), Some(1));
}

#[test]
fn equal_priority_and_timestamp_serves_first_enqueued() {
    let mut q = DeviceQueue::new(String::from("/mnt/usb"), 0);
    q.enqueue(job(7, QueuePriority::Interactive, 42));
    q.enqueue(job(8, QueuePriority::Interactive, 42));
    assert_eq!(q.next(), Some(7));
}

#[test]
fn busy_queue_hands_out_nothing_more() {
    let mut q = DeviceQueue::new(String::from("/mnt/usb"), 0);
    q.enqueue(job(1, QueuePriority::Normal, 1));
    q.enqueue(job(2, QueuePriority::Normal, 2));
    assert_eq!(q.next(), Some(1));
    assert_eq!(q.next(), None);
    assert!(q.current_transfer.is_some());
    assert_eq!(q.priority_queue.len(), 1);
}

#[test]
fn paused_queue_halts_dequeuing_until_resume() {
    let mut q = DeviceQueue::new(String::from("/mnt/usb"), 0);
    q.enqueue(job(1, QueuePriority::Critical, 1));
    q.pause();
    assert_eq!(q.next(), None);
    assert!(matches!(q.status, QueueStatus::Paused));
    q.resume();
    assert_eq!(q.next(), Some(1));
}

#[test]
fn empty_queue_goes_idle() {
    let mut q = DeviceQueue::new(String::from("/mnt/usb"), 0);
    assert_eq!(q.next(), None);
    assert!(matches!(q.status, QueueStatus::Idle));
}

#[test]
fn completion_updates_statistics_and_history() {
    let mut q = DeviceQueue::new(String::from("/mnt/usb"), 0);
    q.enqueue(job(1, QueuePriority::Normal, 1));
    assert_eq!(q.next(), Some(1));
    let mut result = TransferResult::new(1);
    result.status = TransferStatus::Completed;
    result.total_bytes = 4096;
    result.duration_ms = 250;
    q.complete_current(result, 999);
    assert!(q.current_transfer.is_none());
    assert_eq!(q.stats.total_transfers, 1);
    assert_eq!(q.stats.successful_transfers, 1);
    assert_eq!(q.stats.failed_transfers, 0);
    assert_eq!(q.stats.total_bytes, 4096);
    assert_eq!(q.stats.total_duration_ms, 250);
    assert_eq!(q.completed_transfers.len(), 1);
    assert_eq!(q.completed_transfers[0].completed_at_ms, 999);

    q.enqueue(job(2, QueuePriority::Normal, 2));
    assert_eq!(q.next(), Some(2));
    let mut failed = TransferResult::new(2);
    failed.status = TransferStatus::Error;
    failed.total_bytes = 100;
    failed.duration_ms = 10;
    q.complete_current(failed, 1200);
    assert_eq!(q.stats.total_transfers, 2);
    assert_eq!(q.stats.successful_transfers, 1);
    assert_eq!(q.stats.failed_transfers, 1);
    assert_eq!(q.stats.total_bytes, 4196);
}

#[test]
fn device_name_is_last_path_component() {
    let q = DeviceQueue::new(String::from("/mnt/usb-stick"), 0);
    assert_eq!(q.device_name, "usb-stick");
    let q2 = DeviceQueue::new(String::from("/mnt/usb/"), 0);
    assert_eq!(q2.device_name, "usb");
    let q3 = DeviceQueue::new(String::from(""), 0);
    assert_eq!(q3.device_name, "Unknown");
    let q4 = DeviceQueue::new(String::from("plain"), 0);
    assert_eq!(q4.device_name, "plain");
    let q5 = DeviceQueue::new(String::from("/"), 0);
    assert_eq!(q5.device_name, "Unknown");
}

#[test]
fn pending_list_serves_fifo_after_priority_structure() {
    let mut q = DeviceQueue::new(String::from("/mnt/usb"), 0);
    q.pending_transfers.push(job(11, QueuePriority::Normal, 5));
    q.pending_transfers.push(job(12, QueuePriority::Critical, 1));
    assert_eq!(q.next(), Some(11));
}
