//! Per-rule copy policy: which rules lead to a copy, what each attempt
//! reports, and how a successful run changes the destination file.
//!
//! The filesystem is modelled by plain values: a path's content is an
//! `Option<Seq<u8>>`, `None` when no file is present. The caller probes
//! existence, performs the copy when the action asks for one, and reports
//! the message built here.

use vstd::prelude::*;
use vstd::string::StringExecFns;

verus! {

/// What is to be done for one sync rule, given the state of the two paths.
#[derive(Clone, Copy, Debug, PartialEq, Eq, Structural)]
pub enum CopyAction {
    /// The source file is absent: nothing to copy, reported as an error.
    SkipMissingSource,
    /// The destination exists and the rule forbids overwriting.
    SkipOverwriteDenied,
    /// The destination exists and the rule allows overwriting it.
    OverwriteExisting,
    /// The destination does not exist yet.
    CopyFresh,
}

/// The action taken for a rule: the source must exist, then an existing
/// destination is overwritten only when the rule allows it.
pub open spec fn spec_copy_action(
    local_exists: bool,
    sync_exists: bool,
    overwrite_allowed: bool,
) -> CopyAction {
    if !local_exists {
        CopyAction::SkipMissingSource
    } else if sync_exists {
        if overwrite_allowed {
            CopyAction::OverwriteExisting
        } else {
            CopyAction::SkipOverwriteDenied
        }
    } else {
        CopyAction::CopyFresh
    }
}

/// Whether the action asks the caller to perform a copy.
pub open spec fn action_copies(a: CopyAction) -> bool {
    a == CopyAction::OverwriteExisting || a == CopyAction::CopyFresh
}

/// Decides what to do for one rule from the two existence probes and the
/// rule's overwrite policy.
pub fn copy_action(local_exists: bool, sync_exists: bool, overwrite_allowed: bool) -> (a:
    CopyAction)
    ensures
        a == spec_copy_action(local_exists, sync_exists, overwrite_allowed),
{
    if !local_exists {
        CopyAction::SkipMissingSource
    } else if sync_exists {
        if overwrite_allowed {
            CopyAction::OverwriteExisting
        } else {
            CopyAction::SkipOverwriteDenied
        }
    } else {
        CopyAction::CopyFresh
    }
}

/// Whether the action asks the caller to perform a copy.
pub fn needs_copy(a: CopyAction) -> (r: bool)
    ensures
        r == action_copies(a),
{
    match a {
        CopyAction::OverwriteExisting => true,
        CopyAction::CopyFresh => true,
        _ => false,
    }
}

/// How one rule ended, once any requested copy was attempted.
#[derive(Clone, Copy, Debug, PartialEq, Eq, Structural)]
pub enum CopyOutcome {
    MissingSource,
    OverwriteDenied,
    Overwritten,
    OverwriteFailed,
    Copied,
    CopyFailed,
}

/// The outcome that follows an action; `copy_ok` reports whether the copy
/// the action asked for succeeded, and is ignored when none was asked for.
pub open spec fn spec_copy_outcome(a: CopyAction, copy_ok: bool) -> CopyOutcome {
    match a {
        CopyAction::SkipMissingSource => CopyOutcome::MissingSource,
        CopyAction::SkipOverwriteDenied => CopyOutcome::OverwriteDenied,
        CopyAction::OverwriteExisting => if copy_ok {
            CopyOutcome::Overwritten
        } else {
            CopyOutcome::OverwriteFailed
        },
        CopyAction::CopyFresh => if copy_ok {
            CopyOutcome::Copied
        } else {
            CopyOutcome::CopyFailed
        },
    }
}

/// Maps the attempted action and the copy result to the reported outcome.
pub fn copy_outcome(a: CopyAction, copy_ok: bool) -> (o: CopyOutcome)
    ensures
        o == spec_copy_outcome(a, copy_ok),
{
    match a {
        CopyAction::SkipMissingSource => CopyOutcome::MissingSource,
        CopyAction::SkipOverwriteDenied => CopyOutcome::OverwriteDenied,
        CopyAction::OverwriteExisting => if copy_ok {
            CopyOutcome::Overwritten
        } else {
            CopyOutcome::OverwriteFailed
        },
        CopyAction::CopyFresh => if copy_ok {
            CopyOutcome::Copied
        } else {
            CopyOutcome::CopyFailed
        },
    }
}

/// Outcomes that are reported on the error stream rather than as status.
pub open spec fn outcome_is_error(o: CopyOutcome) -> bool {
    o == CopyOutcome::MissingSource || o == CopyOutcome::OverwriteFailed || o
        == CopyOutcome::CopyFailed
}

/// Whether the outcome is reported on the error stream.
pub fn is_error_outcome(o: CopyOutcome) -> (r: bool)
    ensures
        r == outcome_is_error(o),
{
    match o {
        CopyOutcome::MissingSource => true,
        CopyOutcome::OverwriteFailed => true,
        CopyOutcome::CopyFailed => true,
        _ => false,
    }
}

/// The report line for an outcome: `local` and `sync` are the two composed
/// file paths, `cause` the text of the underlying failure, read only by the
/// failure outcomes.
pub open spec fn spec_outcome_message(
    o: CopyOutcome,
    local: Seq<char>,
    sync: Seq<char>,
    cause: Seq<char>,
) -> Seq<char> {
    match o {
        CopyOutcome::MissingSource => "Error: Source file does not exist: "@ + local,
        CopyOutcome::OverwriteDenied => "Skipped (overwrite denied): "@ + sync,
        CopyOutcome::Overwritten => "Overwritten: "@ + sync,
        CopyOutcome::OverwriteFailed => "Error: Failed to overwrite file: "@ + sync + " - "@
            + cause,
        CopyOutcome::Copied => "Copied: "@ + sync,
        CopyOutcome::CopyFailed => "Error: Failed to copy file: "@ + sync + " - "@ + cause,
    }
}

/// Builds the report line for an outcome.
pub fn outcome_message(o: CopyOutcome, local_path: &str, sync_path: &str, cause: &str) -> (m:
    String)
    ensures
        m@ == spec_outcome_message(o, local_path@, sync_path@, cause@),
{
    match o {
        CopyOutcome::MissingSource => String::from_str("Error: Source file does not exist: ")
            .concat(local_path),
        CopyOutcome::OverwriteDenied => String::from_str("Skipped (overwrite denied): ").concat(
            sync_path,
        ),
        CopyOutcome::Overwritten => String::from_str("Overwritten: ").concat(sync_path),
        CopyOutcome::OverwriteFailed => String::from_str("Error: Failed to overwrite file: ")
            .concat(sync_path).concat(" - ").concat(cause),
        CopyOutcome::Copied => String::from_str("Copied: ").concat(sync_path),
        CopyOutcome::CopyFailed => String::from_str("Error: Failed to copy file: ").concat(
            sync_path,
        ).concat(" - ").concat(cause),
    }
}

/// The destination's content after one rule runs and any copy the action
/// asked for succeeds: a performed copy duplicates the source's bytes, and
/// everything else leaves the destination as it was.
pub open spec fn spec_sync_after(
    local: Option<Seq<u8>>,
    sync: Option<Seq<u8>>,
    overwrite_allowed: bool,
) -> Option<Seq<u8>> {
    if action_copies(spec_copy_action(local is Some, sync is Some, overwrite_allowed)) {
        local
    } else {
        sync
    }
}

/// With overwriting denied and the destination already present, the rule is
/// skipped, no copy is asked for, and running it any number of times leaves
/// the destination's content unchanged.
pub proof fn lemma_deny_is_idempotent(local: Option<Seq<u8>>, sync: Option<Seq<u8>>)
    requires
        sync is Some,
    ensures
        spec_copy_action(local is Some, sync is Some, false) == (if local is Some {
            CopyAction::SkipOverwriteDenied
        } else {
            CopyAction::SkipMissingSource
        }),
        !action_copies(spec_copy_action(local is Some, sync is Some, false)),
        spec_sync_after(local, sync, false) == sync,
        spec_sync_after(local, spec_sync_after(local, sync, false), false) == sync,
{
}

/// With overwriting allowed, an existing destination ends with exactly the
/// source's content once the copy succeeds.
pub proof fn lemma_overwrite_replaces_content(local: Option<Seq<u8>>, sync: Option<Seq<u8>>)
    requires
        local is Some,
        sync is Some,
    ensures
        spec_copy_action(true, true, true) == CopyAction::OverwriteExisting,
        spec_sync_after(local, sync, true) == local,
{
}

/// With no destination present, the file is copied whatever the overwrite
/// policy says, and the destination ends with exactly the source's content.
pub proof fn lemma_copy_when_absent(local: Option<Seq<u8>>, overwrite_allowed: bool)
    requires
        local is Some,
    ensures
        spec_copy_action(true, false, overwrite_allowed) == CopyAction::CopyFresh,
        spec_sync_after(local, None, overwrite_allowed) == local,
{
}

} // verus!
