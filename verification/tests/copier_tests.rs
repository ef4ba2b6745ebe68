use filesync::copier::{
    copy_action, copy_outcome, is_error_outcome, needs_copy, outcome_message, CopyAction,
    CopyOutcome,
};

#[test]
fn action_table() {
    assert_eq!(copy_action(false, false, false), CopyAction::SkipMissingSource);
    assert_eq!(copy_action(false, false, true), CopyAction::SkipMissingSource);
    assert_eq!(copy_action(false, true, false), CopyAction::SkipMissingSource);
    assert_eq!(copy_action(false, true, true), CopyAction::SkipMissingSource);
    assert_eq!(copy_action(true, true, true), CopyAction::OverwriteExisting);
    assert_eq!(copy_action(true, true, false), CopyAction::SkipOverwriteDenied);
    assert_eq!(copy_action(true, false, true), CopyAction::CopyFresh);
    assert_eq!(copy_action(true, false, false), CopyAction::CopyFresh);
}

#[test]
fn only_copying_actions_need_a_copy() {
    assert!(needs_copy(CopyAction::OverwriteExisting));
    assert!(needs_copy(CopyAction::CopyFresh));
    assert!(!needs_copy(CopyAction::SkipMissingSource));
    assert!(!needs_copy(CopyAction::SkipOverwriteDenied));
}

#[test]
fn denied_overwrite_is_skipped_every_time() {
    // With the destination present and overwriting denied, the run asks for
    // no copy, so the destination's content cannot change; a second run sees
    // the same state and skips again.
    for _ in 0..2 {
        let action = copy_action(true, true, false);
        assert_eq!(action, CopyAction::SkipOverwriteDenied);
        assert!(!needs_copy(action));
        assert_eq!(copy_outcome(action, true), CopyOutcome::OverwriteDenied);
    }
}

#[test]
fn allowed_overwrite_copies_over_existing_destination() {
    let action = copy_action(true, true, true);
    assert_eq!(action, CopyAction::OverwriteExisting);
    assert!(needs_copy(action));
    assert_eq!(copy_outcome(action, true), CopyOutcome::Overwritten);
}

#[test]
fn absent_destination_is_copied_whatever_the_flag_says() {
    for overwrite_allowed in [false, true] {
        let action = copy_action(true, false, overwrite_allowed);
        assert_eq!(action, CopyAction::CopyFresh);
        assert!(needs_copy(action));
        assert_eq!(copy_outcome(action, true), CopyOutcome::Copied);
    }
}

#[test]
fn outcome_table() {
    assert_eq!(
        copy_outcome(CopyAction::SkipMissingSource, true),
        CopyOutcome::MissingSource
    );
    assert_eq!(
        copy_outcome(CopyAction::SkipOverwriteDenied, true),
        CopyOutcome::OverwriteDenied
    );
    assert_eq!(
        copy_outcome(CopyAction::OverwriteExisting, false),
        CopyOutcome::OverwriteFailed
    );
    assert_eq!(copy_outcome(CopyAction::CopyFresh, false), CopyOutcome::CopyFailed);
}

#[test]
fn error_outcomes_go_to_the_error_stream() {
    assert!(is_error_outcome(CopyOutcome::MissingSource));
    assert!(is_error_outcome(CopyOutcome::OverwriteFailed));
    assert!(is_error_outcome(CopyOutcome::CopyFailed));
    assert!(!is_error_outcome(CopyOutcome::OverwriteDenied));
    assert!(!is_error_outcome(CopyOutcome::Overwritten));
    assert!(!is_error_outcome(CopyOutcome::Copied));
}

#[test]
fn report_lines() {
    let local = "/tmp/src/report.txt";
    let sync = "/tmp/dst/report.txt";
    assert_eq!(
        outcome_message(CopyOutcome::Overwritten, local, sync, ""),
        "Overwritten: /tmp/dst/report.txt"
    );
    assert_eq!(
        outcome_message(CopyOutcome::Copied, local, sync, ""),
        "Copied: /tmp/dst/report.txt"
    );
    assert_eq!(
        outcome_message(CopyOutcome::OverwriteDenied, local, sync, ""),
        "Skipped (overwrite denied): /tmp/dst/report.txt"
    );
    assert_eq!(
        outcome_message(CopyOutcome::MissingSource, local, sync, ""),
        "Error: Source file does not exist: /tmp/src/report.txt"
    );
    assert_eq!(
        outcome_message(CopyOutcome::OverwriteFailed, local, sync, "denied by the system"),
        "Error: Failed to overwrite file: /tmp/dst/report.txt - denied by the system"
    );
    assert_eq!(
        outcome_message(CopyOutcome::CopyFailed, local, sync, "denied by the system"),
        "Error: Failed to copy file: /tmp/dst/report.txt - denied by the system"
    );
}
