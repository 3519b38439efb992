use copymaster::config::{ConflictAction, GlobalConflictResolution};
use copymaster::copy_engine::RuntimeConflictSettings;
use copymaster::device_queue::{
    resolve_channel_outcome, ChannelOutcome, ConflictDecision, ConflictResolutionResult,
    QueuePriority, TransferJob,
};

fn fresh_job(has_channel: bool) -> TransferJob {
    TransferJob::new(
        1,
        Vec::new(),
        String::from("/mnt/usb/dest"),
        String::from("photos"),
        QueuePriority::Normal,
        0,
        has_channel,
    )
}

fn policy(action: ConflictAction, ask: bool) -> GlobalConflictResolution {
    GlobalConflictResolution {
        default_action: action,
        ask_for_confirmation: ask,
        rename_pattern: String::from("{name} ({counter})"),
    }
}

#[test]
fn latched_overwrite_all_resolves_every_conflict_to_overwrite() {
    let mut job = fresh_job(true);
    job.update_conflict_settings(ConflictAction::OverwriteAll, true);
    // Whatever the global policy says, the sticky flag wins.
    for ask in [true, false] {
        for action in [ConflictAction::Skip, ConflictAction::RenameNew, ConflictAction::Ask] {
            let d = job.handle_conflict(&policy(action, ask));
            assert_eq!(d, ConflictDecision::Resolved(ConflictResolutionResult::Overwrite));
        }
    }
}

#[test]
fn latched_skip_all_resolves_every_conflict_to_skip() {
    let mut job = fresh_job(true);
    job.update_conflict_settings(ConflictAction::SkipAll, true);
    for ask in [true, false] {
        let d = job.handle_conflict(&policy(ConflictAction::Overwrite, ask));
        assert_eq!(d, ConflictDecision::Resolved(ConflictResolutionResult::Skip));
    }
}

#[test]
fn no_confirmation_applies_global_default_without_asking() {
    let job = fresh_job(true);
    let cases = [
        (ConflictAction::Overwrite, ConflictResolutionResult::Overwrite),
        (ConflictAction::Skip, ConflictResolutionResult::Skip),
        (ConflictAction::RenameNew, ConflictResolutionResult::RenameNew),
        (ConflictAction::RenameOld, ConflictResolutionResult::RenameOld),
        (ConflictAction::Ask, ConflictResolutionResult::Ask),
    ];
    for (global, expected) in cases {
        let d = job.handle_conflict(&policy(global, false));
        assert_ne!(d, ConflictDecision::AskChannel);
        assert_eq!(d, ConflictDecision::Resolved(expected));
    }
}

#[test]
fn standing_per_job_action_is_reapplied() {
    let mut job = fresh_job(true);
    job.update_conflict_settings(ConflictAction::RenameNew, false);
    let d = job.handle_conflict(&policy(ConflictAction::Ask, true));
    assert_eq!(d, ConflictDecision::Resolved(ConflictResolutionResult::RenameNew));
}

#[test]
fn unsettled_conflict_goes_to_the_channel_when_attached() {
    let job = fresh_job(true);
    let d = job.handle_conflict(&policy(ConflictAction::Ask, true));
    assert_eq!(d, ConflictDecision::AskChannel);
}

#[test]
fn unsettled_conflict_without_channel_is_cancelled() {
    let job = fresh_job(false);
    let d = job.handle_conflict(&policy(ConflictAction::Ask, true));
    assert_eq!(d, ConflictDecision::Resolved(ConflictResolutionResult::Cancelled));
}

#[test]
fn timeout_on_the_channel_resolves_to_skip_never_overwrite() {
    let r = resolve_channel_outcome(&ChannelOutcome::TimedOut);
    assert_eq!(r, ConflictResolutionResult::Skip);
    assert_ne!(r, ConflictResolutionResult::Overwrite);
}

#[test]
fn channel_outcomes_map_as_specified() {
    assert_eq!(
        resolve_channel_outcome(&ChannelOutcome::Reply(ConflictResolutionResult::RenameOld)),
        ConflictResolutionResult::RenameOld
    );
    assert_eq!(
        resolve_channel_outcome(&ChannelOutcome::Closed),
        ConflictResolutionResult::Ask
    );
    assert_eq!(
        resolve_channel_outcome(&ChannelOutcome::SendFailed),
        ConflictResolutionResult::Cancelled
    );
}

#[test]
fn update_from_action_sets_the_action_but_never_the_latches() {
    let mut s = RuntimeConflictSettings::new();
    assert!(s.should_ask());
    s.update_from_action(&ConflictAction::OverwriteAll);
    assert!(!s.overwrite_all);
    assert!(!s.skip_all);
    assert!(!s.ask_for_each);
    assert_eq!(s.current_action, ConflictAction::Overwrite);
    assert!(!s.should_ask());
    s.update_from_action(&ConflictAction::SkipAll);
    assert!(!s.skip_all);
    assert!(!s.overwrite_all);
    assert_eq!(s.current_action, ConflictAction::Skip);
}

#[test]
fn latching_needs_remember_for_transfer() {
    let mut job = fresh_job(true);
    job.update_conflict_settings(ConflictAction::OverwriteAll, false);
    assert!(!job.conflict_settings.overwrite_all);
    assert!(!job.conflict_settings.skip_all);
    assert_eq!(job.conflict_settings.current_action, ConflictAction::Overwrite);
    job.update_conflict_settings(ConflictAction::SkipAll, false);
    assert!(!job.conflict_settings.skip_all);
    assert_eq!(job.conflict_settings.current_action, ConflictAction::Skip);
}

#[test]
fn a_latched_flag_stays_latched_for_the_job() {
    let mut job = fresh_job(true);
    job.update_conflict_settings(ConflictAction::OverwriteAll, true);
    assert!(job.conflict_settings.overwrite_all);
    // Later decisions, remembered or not, cannot unlatch it.
    job.update_conflict_settings(ConflictAction::SkipAll, false);
    assert!(job.conflict_settings.overwrite_all);
    job.update_conflict_settings(ConflictAction::SkipAll, true);
    assert!(job.conflict_settings.overwrite_all);
    assert!(job.conflict_settings.skip_all);
    // With both latched, the precedence still answers overwrite first.
    let d = job.handle_conflict(&policy(ConflictAction::Ask, true));
    assert_eq!(d, ConflictDecision::Resolved(ConflictResolutionResult::Overwrite));
}

#[test]
fn plain_action_updates_without_latching() {
    let mut s = RuntimeConflictSettings::new();
    s.update_from_action(&ConflictAction::RenameOld);
    assert_eq!(s.current_action, ConflictAction::RenameOld);
    assert!(!s.overwrite_all);
    assert!(!s.skip_all);
    assert!(s.ask_for_each);
    assert!(!s.should_ask());
}
