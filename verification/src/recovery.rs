//! The graduated recovery protocol for forcibly recreating an existing
//! database file that may be locked or carry stale permissions.
//!
//! The strategies are tried in a fixed order, each independently failable:
//! direct removal with a bounded retry count and backoff, then renaming the
//! file to a numbered backup path, then reusing the file in place by
//! recreating the schema, then creating the database at an alternate sibling
//! path. The whole operation fails only when the last strategy fails, and
//! data that cannot be safely overwritten is preserved (rename before
//! delete). The decisions live here as a verified step function from state
//! and event to state; the surrounding process performs the file actions and
//! reports back what happened.

use vstd::prelude::*;

verus! {

/// How many direct removal attempts are made before escalating.
pub const MAX_REMOVE_ATTEMPTS: u8 = 5;

/// How long to back off between removal attempts, in milliseconds.
pub const REMOVE_RETRY_WAIT_MILLIS: u64 = 500;

/// Where the recovery protocol stands.
#[derive(Debug, Clone, Copy, PartialEq, Eq, Structural)]
pub enum RecoveryState {
    /// Removing the file directly; this many attempts remain.
    Retrying { attempts_left: u8 },
    /// Probing backup names for a free one, currently this numeric suffix.
    BackingUp { suffix: u64 },
    /// Renaming the file to the chosen backup path.
    Renaming { suffix: u64 },
    /// Reusing the existing file: dropping and recreating the schema in
    /// place over a fresh connection.
    Reusing,
    /// Creating the database at the alternate sibling path.
    AlternatePath,
    /// The original path is clear; creating a fresh database there.
    CreatingFresh,
    /// The protocol succeeded, this way.
    Done { outcome: RecoveryOutcome },
    /// Every fallback failed.
    Failed,
}

/// How a finished recovery succeeded.
#[derive(Debug, Clone, Copy, PartialEq, Eq, Structural)]
pub enum RecoveryOutcome {
    /// A fresh database stands at the original path.
    FreshAtOriginal,
    /// The existing file was kept and its schema recreated in place.
    ReusedInPlace,
    /// A fresh database stands at the alternate path.
    FreshAtAlternate,
}

/// The file action a state asks the process to perform.
#[derive(Debug, Clone, Copy, PartialEq, Eq, Structural)]
pub enum RecoveryAction {
    /// After waiting the given milliseconds: clear the read-only bit if set,
    /// best-effort remove the engine's side files, and remove the main file.
    RemoveMainFile { wait_before_millis: u64 },
    /// Report whether the backup path with this suffix already exists
    /// (suffix 0 names the plain backup path).
    ProbeBackupPath { suffix: u64 },
    /// Rename the main file to the backup path with this suffix.
    RenameToBackup { suffix: u64 },
    /// Open the existing file and recreate the schema in place.
    ReuseInPlace,
    /// Create and initialize a database at the alternate sibling path.
    CreateAtAlternate,
    /// Create and initialize a database at the original path.
    CreateFresh,
}

/// What the process reports back after performing an action.
#[derive(Debug, Clone, Copy, PartialEq, Eq, Structural)]
pub enum RecoveryEvent {
    /// The performed action succeeded.
    Succeeded,
    /// The performed action failed.
    Failed,
    /// The probed backup path is taken.
    PathExists,
    /// The probed backup path is free.
    PathFree,
}

/// The protocol's starting state: direct removal, with the full attempt
/// budget.
pub open spec fn initial_recovery_state_spec() -> RecoveryState {
    RecoveryState::Retrying { attempts_left: MAX_REMOVE_ATTEMPTS }
}

/// Whether the protocol has ended.
pub open spec fn recovery_terminal(s: RecoveryState) -> bool {
    s is Done || s is Failed
}

/// The action a state asks for; terminal states ask for nothing.
pub open spec fn recovery_action_spec(s: RecoveryState) -> Option<RecoveryAction> {
    match s {
        RecoveryState::Retrying { attempts_left } => Some(
            RecoveryAction::RemoveMainFile {
                wait_before_millis: if attempts_left == MAX_REMOVE_ATTEMPTS {
                    0
                } else {
                    REMOVE_RETRY_WAIT_MILLIS
                },
            },
        ),
        RecoveryState::BackingUp { suffix } => Some(RecoveryAction::ProbeBackupPath { suffix }),
        RecoveryState::Renaming { suffix } => Some(RecoveryAction::RenameToBackup { suffix }),
        RecoveryState::Reusing => Some(RecoveryAction::ReuseInPlace),
        RecoveryState::AlternatePath => Some(RecoveryAction::CreateAtAlternate),
        RecoveryState::CreatingFresh => Some(RecoveryAction::CreateFresh),
        RecoveryState::Done { .. } => None,
        RecoveryState::Failed => None,
    }
}

/// Whether an event is an answer to the action the state asked for.
pub open spec fn event_answers(s: RecoveryState, e: RecoveryEvent) -> bool {
    match s {
        RecoveryState::BackingUp { .. } => e is PathExists || e is PathFree,
        RecoveryState::Retrying { .. } => e is Succeeded || e is Failed,
        RecoveryState::Renaming { .. } => e is Succeeded || e is Failed,
        RecoveryState::Reusing => e is Succeeded || e is Failed,
        RecoveryState::AlternatePath => e is Succeeded || e is Failed,
        RecoveryState::CreatingFresh => e is Succeeded || e is Failed,
        RecoveryState::Done { .. } => false,
        RecoveryState::Failed => false,
    }
}

/// The next state after an event. An event that does not answer the state's
/// action (or arrives in a terminal state) changes nothing; a suffix probe
/// that exhausts the numeric range is treated like a rename failure and
/// escalates to in-place reuse.
pub open spec fn recovery_step_spec(s: RecoveryState, e: RecoveryEvent) -> RecoveryState {
    if !event_answers(s, e) {
        s
    } else {
        match s {
            RecoveryState::Retrying { attempts_left } => {
                if e is Succeeded {
                    RecoveryState::CreatingFresh
                } else if attempts_left > 1 {
                    RecoveryState::Retrying { attempts_left: (attempts_left - 1) as u8 }
                } else {
                    RecoveryState::BackingUp { suffix: 0 }
                }
            },
            RecoveryState::BackingUp { suffix } => {
                if e is PathFree {
                    RecoveryState::Renaming { suffix }
                } else if suffix < u64::MAX {
                    RecoveryState::BackingUp { suffix: (suffix + 1) as u64 }
                } else {
                    RecoveryState::Reusing
                }
            },
            RecoveryState::Renaming { .. } => {
                if e is Succeeded {
                    RecoveryState::CreatingFresh
                } else {
                    RecoveryState::Reusing
                }
            },
            RecoveryState::Reusing => {
                if e is Succeeded {
                    RecoveryState::Done { outcome: RecoveryOutcome::ReusedInPlace }
                } else {
                    RecoveryState::AlternatePath
                }
            },
            RecoveryState::AlternatePath => {
                if e is Succeeded {
                    RecoveryState::Done { outcome: RecoveryOutcome::FreshAtAlternate }
                } else {
                    RecoveryState::Failed
                }
            },
            RecoveryState::CreatingFresh => {
                if e is Succeeded {
                    RecoveryState::Done { outcome: RecoveryOutcome::FreshAtOriginal }
                } else {
                    RecoveryState::Failed
                }
            },
            RecoveryState::Done { .. } => s,
            RecoveryState::Failed => s,
        }
    }
}

/// The protocol's starting state.
pub fn initial_recovery_state() -> (r: RecoveryState)
    ensures
        r == initial_recovery_state_spec(),
{
    RecoveryState::Retrying { attempts_left: MAX_REMOVE_ATTEMPTS }
}

/// Whether the protocol has ended.
pub fn is_recovery_terminal(s: &RecoveryState) -> (r: bool)
    ensures
        r == recovery_terminal(*s),
{
    match s {
        RecoveryState::Done { .. } => true,
        RecoveryState::Failed => true,
        _ => false,
    }
}

/// The action the given state asks the process to perform.
pub fn recovery_action(s: &RecoveryState) -> (r: Option<RecoveryAction>)
    ensures
        r == recovery_action_spec(*s),
{
    match s {
        RecoveryState::Retrying { attempts_left } => Some(
            RecoveryAction::RemoveMainFile {
                wait_before_millis: if *attempts_left == MAX_REMOVE_ATTEMPTS {
                    0
                } else {
                    REMOVE_RETRY_WAIT_MILLIS
                },
            },
        ),
        RecoveryState::BackingUp { suffix } => Some(
            RecoveryAction::ProbeBackupPath { suffix: *suffix },
        ),
        RecoveryState::Renaming { suffix } => Some(
            RecoveryAction::RenameToBackup { suffix: *suffix },
        ),
        RecoveryState::Reusing => Some(RecoveryAction::ReuseInPlace),
        RecoveryState::AlternatePath => Some(RecoveryAction::CreateAtAlternate),
        RecoveryState::CreatingFresh => Some(RecoveryAction::CreateFresh),
        RecoveryState::Done { .. } => None,
        RecoveryState::Failed => None,
    }
}

/// Advance the protocol by one reported event.
pub fn recovery_step(s: &RecoveryState, e: RecoveryEvent) -> (r: RecoveryState)
    ensures
        r == recovery_step_spec(*s, e),
{
    let answers = match s {
        RecoveryState::BackingUp { .. } => e == RecoveryEvent::PathExists || e
            == RecoveryEvent::PathFree,
        RecoveryState::Done { .. } => false,
        RecoveryState::Failed => false,
        _ => e == RecoveryEvent::Succeeded || e == RecoveryEvent::Failed,
    };
    if !answers {
        return *s;
    }
    match s {
        RecoveryState::Retrying { attempts_left } => {
            if e == RecoveryEvent::Succeeded {
                RecoveryState::CreatingFresh
            } else if *attempts_left > 1 {
                RecoveryState::Retrying { attempts_left: *attempts_left - 1 }
            } else {
                RecoveryState::BackingUp { suffix: 0 }
            }
        },
        RecoveryState::BackingUp { suffix } => {
            if e == RecoveryEvent::PathFree {
                RecoveryState::Renaming { suffix: *suffix }
            } else if *suffix < u64::MAX {
                RecoveryState::BackingUp { suffix: *suffix + 1 }
            } else {
                RecoveryState::Reusing
            }
        },
        RecoveryState::Renaming { .. } => {
            if e == RecoveryEvent::Succeeded {
                RecoveryState::CreatingFresh
            } else {
                RecoveryState::Reusing
            }
        },
        RecoveryState::Reusing => {
            if e == RecoveryEvent::Succeeded {
                RecoveryState::Done { outcome: RecoveryOutcome::ReusedInPlace }
            } else {
                RecoveryState::AlternatePath
            }
        },
        RecoveryState::AlternatePath => {
            if e == RecoveryEvent::Succeeded {
                RecoveryState::Done { outcome: RecoveryOutcome::FreshAtAlternate }
            } else {
                RecoveryState::Failed
            }
        },
        RecoveryState::CreatingFresh => {
            if e == RecoveryEvent::Succeeded {
                RecoveryState::Done { outcome: RecoveryOutcome::FreshAtOriginal }
            } else {
                RecoveryState::Failed
            }
        },
        RecoveryState::Done { outcome } => RecoveryState::Done { outcome: *outcome },
        RecoveryState::Failed => RecoveryState::Failed,
    }
}

// ---------------------------------------------------------------------------
// Laws of the protocol
// ---------------------------------------------------------------------------

/// The position of a state in the strategy order: direct removal, then
/// backup-rename, then in-place reuse, then the alternate path.
pub open spec fn strategy_rank(s: RecoveryState) -> int {
    match s {
        RecoveryState::Retrying { .. } => 0,
        RecoveryState::BackingUp { .. } => 1,
        RecoveryState::Renaming { .. } => 2,
        RecoveryState::Reusing => 3,
        RecoveryState::AlternatePath => 4,
        RecoveryState::CreatingFresh => 5,
        RecoveryState::Done { .. } => 6,
        RecoveryState::Failed => 6,
    }
}

/// A decreasing measure of the protocol: strategies never run backward, and
/// within a strategy the retry budget or the remaining suffix range shrinks.
pub open spec fn recovery_measure(s: RecoveryState) -> int {
    let internal: int = match s {
        RecoveryState::Retrying { attempts_left } => attempts_left as int,
        RecoveryState::BackingUp { suffix } => u64::MAX - suffix,
        _ => 0,
    };
    (6 - strategy_rank(s)) * 0x2_0000_0000_0000_0000 + internal
}

/// The protocol never returns to an earlier strategy.
pub proof fn lemma_recovery_never_runs_backward(s: RecoveryState, e: RecoveryEvent)
    ensures
        strategy_rank(recovery_step_spec(s, e)) >= strategy_rank(s),
{
}

/// Every answered event brings the protocol strictly closer to an end, so a
/// run that keeps answering terminates in `Done` or `Failed`.
pub proof fn lemma_recovery_terminates(s: RecoveryState, e: RecoveryEvent)
    requires
        !recovery_terminal(s),
        event_answers(s, e),
    ensures
        recovery_measure(recovery_step_spec(s, e)) < recovery_measure(s),
{
}

/// The protocol reports overall failure only out of its two last resorts:
/// creating at the alternate path, or creating the fresh database after the
/// original path was cleared. In particular every earlier strategy's failure
/// escalates instead of aborting.
pub proof fn lemma_failure_only_from_last_resort(s: RecoveryState, e: RecoveryEvent)
    requires
        !(s is Failed),
    ensures
        recovery_step_spec(s, e) is Failed ==> (s is AlternatePath || s is CreatingFresh),
{
}

/// Success through in-place reuse or the alternate path never removes the
/// original file's data: those outcomes arise only out of their own
/// strategies, which the protocol reaches only after direct removal already
/// failed the full attempt budget.
pub proof fn lemma_outcomes_match_strategies(s: RecoveryState, e: RecoveryEvent)
    ensures
        (recovery_step_spec(s, e) matches RecoveryState::Done { outcome }
            && outcome == RecoveryOutcome::ReusedInPlace && !(s is Done)) ==> s is Reusing,
        (recovery_step_spec(s, e) matches RecoveryState::Done { outcome }
            && outcome == RecoveryOutcome::FreshAtAlternate && !(s is Done)) ==> s
            is AlternatePath,
        (recovery_step_spec(s, e) matches RecoveryState::Done { outcome }
            && outcome == RecoveryOutcome::FreshAtOriginal && !(s is Done)) ==> s
            is CreatingFresh,
{
}

} // verus!
