use copymaster::device_queue::{ItemTransferStatus, ItemType, TransferItem};
use copymaster::error_recovery::{CopyError, ErrorRecovery, RecoveryAction};

fn item() -> TransferItem {
    TransferItem {
        source_path: String::from("/src/a.txt"),
        relative_path: String::from("a.txt"),
        item_type: ItemType::File,
        size: 10,
        children: Vec::new(),
        status: ItemTransferStatus::Pending,
    }
}

#[test]
fn only_the_three_transient_kinds_are_retryable() {
    assert!(CopyError::FileLocked.can_retry());
    assert!(CopyError::NetworkError.can_retry());
    assert!(CopyError::HashMismatch.can_retry());
    assert!(!CopyError::Io(String::from("boom")).can_retry());
    assert!(!CopyError::PermissionDenied.can_retry());
    assert!(!CopyError::DiskFull.can_retry());
    assert!(!CopyError::Cancelled.can_retry());
    assert!(!CopyError::Paused.can_retry());
    assert!(!CopyError::InvalidPath.can_retry());
    assert!(!CopyError::CrossDeviceLink.can_retry());
}

#[test]
fn suggested_actions_match_the_design() {
    assert!(matches!(CopyError::DiskFull.suggested_action(), RecoveryAction::FreeSpace));
    assert!(matches!(
        CopyError::PermissionDenied.suggested_action(),
        RecoveryAction::RequestElevation
    ));
    assert!(matches!(CopyError::FileLocked.suggested_action(), RecoveryAction::UnlockOrSkip));
    assert!(matches!(CopyError::CrossDeviceLink.suggested_action(), RecoveryAction::UseCopy));
    assert!(matches!(
        CopyError::Io(String::from("x")).suggested_action(),
        RecoveryAction::RetryOrSkip
    ));
    assert!(matches!(CopyError::NetworkError.suggested_action(), RecoveryAction::RetryOrSkip));
    assert!(matches!(CopyError::HashMismatch.suggested_action(), RecoveryAction::RetryOrSkip));
    assert!(matches!(CopyError::Cancelled.suggested_action(), RecoveryAction::RetryOrSkip));
    assert!(matches!(CopyError::Paused.suggested_action(), RecoveryAction::RetryOrSkip));
    assert!(matches!(CopyError::InvalidPath.suggested_action(), RecoveryAction::RetryOrSkip));
}

#[test]
fn handle_error_retries_transient_errors() {
    let recovery = ErrorRecovery::new(3, 500, true);
    let r = recovery.handle_error(&CopyError::FileLocked, &item());
    assert!(matches!(r, Ok(RecoveryAction::Retry)));
    let r = recovery.handle_error(&CopyError::NetworkError, &item());
    assert!(matches!(r, Ok(RecoveryAction::Retry)));
}

#[test]
fn handle_error_reraises_fatal_errors_unchanged() {
    let recovery = ErrorRecovery::new(3, 500, false);
    let r = recovery.handle_error(&CopyError::DiskFull, &item());
    assert!(matches!(r, Err(CopyError::DiskFull)));
    let r = recovery.handle_error(&CopyError::Io(String::from("short read")), &item());
    match r {
        Err(CopyError::Io(detail)) => assert_eq!(detail, "short read"),
        other => panic!("expected the Io error back, got {:?}", other),
    }
}

#[test]
fn messages_are_exact() {
    assert_eq!(CopyError::Io(String::from("short read")).message(), "IO error: short read");
    assert_eq!(CopyError::PermissionDenied.message(), "Permission denied");
    assert_eq!(CopyError::DiskFull.message(), "Disk full");
    assert_eq!(CopyError::FileLocked.message(), "File locked");
    assert_eq!(CopyError::NetworkError.message(), "Network error");
    assert_eq!(CopyError::HashMismatch.message(), "Hash mismatch");
    assert_eq!(CopyError::Cancelled.message(), "Cancelled");
    assert_eq!(CopyError::Paused.message(), "Paused");
    assert_eq!(CopyError::InvalidPath.message(), "Invalid path");
    assert_eq!(CopyError::CrossDeviceLink.message(), "Cross device link");
}

#[test]
fn retry_policy_keeps_its_settings() {
    let recovery = ErrorRecovery::new(5, 1200, true);
    assert_eq!(recovery.max_retries, 5);
    assert_eq!(recovery.retry_delay_ms, 1200);
    assert!(recovery.auto_recover);
}
