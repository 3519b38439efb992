//! Classification of copy failures and the retry policy applied to them.

use vstd::prelude::*;
use crate::device_queue::TransferItem;

verus! {

/// Everything that can go wrong while copying one item.
#[derive(Debug)]
pub enum CopyError {
    Io(String),
    PermissionDenied,
    DiskFull,
    FileLocked,
    NetworkError,
    HashMismatch,
    Cancelled,
    Paused,
    InvalidPath,
    CrossDeviceLink,
}

/// What the engine (or the user) should do about a failure.
#[derive(Debug, Clone)]
pub enum RecoveryAction {
    Retry,
    Skip,
    RetryAll,
    SkipAll,
    FreeSpace,
    RequestElevation,
    UnlockOrSkip,
    UseCopy,
    RetryOrSkip,
}

impl CopyError {
    /// Equality of error values, comparing the detail string by content.
    pub open spec fn eq_spec(&self, other: &CopyError) -> bool {
        match (self, other) {
            (CopyError::Io(a), CopyError::Io(b)) => a@ == b@,
            (CopyError::PermissionDenied, CopyError::PermissionDenied) => true,
            (CopyError::DiskFull, CopyError::DiskFull) => true,
            (CopyError::FileLocked, CopyError::FileLocked) => true,
            (CopyError::NetworkError, CopyError::NetworkError) => true,
            (CopyError::HashMismatch, CopyError::HashMismatch) => true,
            (CopyError::Cancelled, CopyError::Cancelled) => true,
            (CopyError::Paused, CopyError::Paused) => true,
            (CopyError::InvalidPath, CopyError::InvalidPath) => true,
            (CopyError::CrossDeviceLink, CopyError::CrossDeviceLink) => true,
            _ => false,
        }
    }

    /// The retryable kinds: a later attempt may succeed.
    pub open spec fn is_retryable(&self) -> bool {
        self is FileLocked || self is NetworkError || self is HashMismatch
    }

    pub fn can_retry(&self) -> (r: bool)
        ensures
            r == self.is_retryable(),
    {
        matches!(self, CopyError::FileLocked | CopyError::NetworkError | CopyError::HashMismatch)
    }

    /// The human-facing remedy for each kind, independent of retry eligibility.
    pub open spec fn suggested_action_spec(&self) -> RecoveryAction {
        match self {
            CopyError::DiskFull => RecoveryAction::FreeSpace,
            CopyError::PermissionDenied => RecoveryAction::RequestElevation,
            CopyError::FileLocked => RecoveryAction::UnlockOrSkip,
            CopyError::CrossDeviceLink => RecoveryAction::UseCopy,
            _ => RecoveryAction::RetryOrSkip,
        }
    }

    pub fn suggested_action(&self) -> (r: RecoveryAction)
        ensures
            r == self.suggested_action_spec(),
    {
        match self {
            CopyError::DiskFull => RecoveryAction::FreeSpace,
            CopyError::PermissionDenied => RecoveryAction::RequestElevation,
            CopyError::FileLocked => RecoveryAction::UnlockOrSkip,
            CopyError::CrossDeviceLink => RecoveryAction::UseCopy,
            _ => RecoveryAction::RetryOrSkip,
        }
    }
}

impl Clone for CopyError {
    fn clone(&self) -> (r: Self)
        ensures
            r.eq_spec(self),
    {
        match self {
            CopyError::Io(s) => CopyError::Io(s.clone()),
            CopyError::PermissionDenied => CopyError::PermissionDenied,
            CopyError::DiskFull => CopyError::DiskFull,
            CopyError::FileLocked => CopyError::FileLocked,
            CopyError::NetworkError => CopyError::NetworkError,
            CopyError::HashMismatch => CopyError::HashMismatch,
            CopyError::Cancelled => CopyError::Cancelled,
            CopyError::Paused => CopyError::Paused,
            CopyError::InvalidPath => CopyError::InvalidPath,
            CopyError::CrossDeviceLink => CopyError::CrossDeviceLink,
        }
    }
}

/// The retry policy: how often, how long between attempts, and whether an
/// automatic remedy should be tried first.
pub struct ErrorRecovery {
    pub max_retries: usize,
    pub retry_delay_ms: u64,
    pub auto_recover: bool,
}

impl ErrorRecovery {
    pub fn new(max_retries: usize, retry_delay_ms: u64, auto_recover: bool) -> (r: Self)
        ensures
            r.max_retries == max_retries,
            r.retry_delay_ms == retry_delay_ms,
            r.auto_recover == auto_recover,
    {
        Self { max_retries, retry_delay_ms, auto_recover }
    }

    /// Applies the retry policy to one failure: a retryable error comes back
    /// as `Retry` for the caller's retry budget, any other is re-raised
    /// unchanged.
    pub fn handle_error(&self, error: &CopyError, transfer: &TransferItem) -> (r: Result<
        RecoveryAction,
        CopyError,
    >)
        ensures
            error.is_retryable() ==> (r matches Ok(a) && a is Retry),
            !error.is_retryable() ==> (r matches Err(e) && e.eq_spec(error)),
    {
        if !error.can_retry() {
            return Err(error.clone());
        }
        Ok(RecoveryAction::Retry)
    }
}

impl CopyError {
    /// The message shown for each kind; the `Io` detail is carried along.
    pub open spec fn message_spec(&self) -> Seq<char> {
        match self {
            CopyError::Io(s) => "IO error: "@ + s@,
            CopyError::PermissionDenied => "Permission denied"@,
            CopyError::DiskFull => "Disk full"@,
            CopyError::FileLocked => "File locked"@,
            CopyError::NetworkError => "Network error"@,
            CopyError::HashMismatch => "Hash mismatch"@,
            CopyError::Cancelled => "Cancelled"@,
            CopyError::Paused => "Paused"@,
            CopyError::InvalidPath => "Invalid path"@,
            CopyError::CrossDeviceLink => "Cross device link"@,
        }
    }

    /// Renders the error for error lists and logs.
    pub fn message(&self) -> (r: String)
        ensures
            r@ == self.message_spec(),
    {
        match self {
            CopyError::Io(s) => {
                let mut m = String::from_str("IO error: ");
                m.append(s.as_str());
                m
            }
            CopyError::PermissionDenied => String::from_str("Permission denied"),
            CopyError::DiskFull => String::from_str("Disk full"),
            CopyError::FileLocked => String::from_str("File locked"),
            CopyError::NetworkError => String::from_str("Network error"),
            CopyError::HashMismatch => String::from_str("Hash mismatch"),
            CopyError::Cancelled => String::from_str("Cancelled"),
            CopyError::Paused => String::from_str("Paused"),
            CopyError::InvalidPath => String::from_str("Invalid path"),
            CopyError::CrossDeviceLink => String::from_str("Cross device link"),
        }
    }
}

} // verus!
