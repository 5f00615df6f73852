use tasky::recovery::initial_recovery_state;
use tasky::recovery::is_recovery_terminal;
use tasky::recovery::recovery_action;
use tasky::recovery::recovery_step;
use tasky::recovery::RecoveryAction;
use tasky::recovery::RecoveryEvent;
use tasky::recovery::RecoveryOutcome;
use tasky::recovery::RecoveryState;
use tasky::recovery::MAX_REMOVE_ATTEMPTS;

#[test]
fn test_removal_succeeds_first_try() {
    let s0 = initial_recovery_state();
    assert_eq!(s0, RecoveryState::Retrying { attempts_left: MAX_REMOVE_ATTEMPTS });
    assert_eq!(
        recovery_action(&s0),
        Some(RecoveryAction::RemoveMainFile { wait_before_millis: 0 })
    );
    let s1 = recovery_step(&s0, RecoveryEvent::Succeeded);
    assert_eq!(s1, RecoveryState::CreatingFresh);
    assert_eq!(recovery_action(&s1), Some(RecoveryAction::CreateFresh));
    let s2 = recovery_step(&s1, RecoveryEvent::Succeeded);
    assert_eq!(s2, RecoveryState::Done { outcome: RecoveryOutcome::FreshAtOriginal });
    assert!(is_recovery_terminal(&s2));
    assert_eq!(recovery_action(&s2), None);
}

#[test]
fn test_removal_retries_with_backoff_then_escalates() {
    let mut s = initial_recovery_state();
    // the first attempt waits nothing; the retries each wait the backoff
    assert_eq!(
        recovery_action(&s),
        Some(RecoveryAction::RemoveMainFile { wait_before_millis: 0 })
    );
    for _ in 0..(MAX_REMOVE_ATTEMPTS - 1) {
        s = recovery_step(&s, RecoveryEvent::Failed);
        assert_eq!(
            recovery_action(&s),
            Some(RecoveryAction::RemoveMainFile { wait_before_millis: 500 })
        );
    }
    // the budget is exhausted: the next failure escalates to the backup path
    s = recovery_step(&s, RecoveryEvent::Failed);
    assert_eq!(s, RecoveryState::BackingUp { suffix: 0 });
    assert_eq!(recovery_action(&s), Some(RecoveryAction::ProbeBackupPath { suffix: 0 }));
}

#[test]
fn test_backup_probes_disambiguate_suffix() {
    let mut s = RecoveryState::BackingUp { suffix: 0 };
    s = recovery_step(&s, RecoveryEvent::PathExists);
    assert_eq!(s, RecoveryState::BackingUp { suffix: 1 });
    s = recovery_step(&s, RecoveryEvent::PathExists);
    assert_eq!(s, RecoveryState::BackingUp { suffix: 2 });
    s = recovery_step(&s, RecoveryEvent::PathFree);
    assert_eq!(s, RecoveryState::Renaming { suffix: 2 });
    assert_eq!(recovery_action(&s), Some(RecoveryAction::RenameToBackup { suffix: 2 }));
    // a successful rename clears the original path for a fresh database
    let s2 = recovery_step(&s, RecoveryEvent::Succeeded);
    assert_eq!(s2, RecoveryState::CreatingFresh);
}

#[test]
fn test_rename_failure_falls_through_all_strategies() {
    let s = RecoveryState::Renaming { suffix: 0 };
    let s = recovery_step(&s, RecoveryEvent::Failed);
    assert_eq!(s, RecoveryState::Reusing);
    assert_eq!(recovery_action(&s), Some(RecoveryAction::ReuseInPlace));
    let s = recovery_step(&s, RecoveryEvent::Failed);
    assert_eq!(s, RecoveryState::AlternatePath);
    assert_eq!(recovery_action(&s), Some(RecoveryAction::CreateAtAlternate));
    // the alternate path succeeding still counts as overall success
    let done = recovery_step(&s, RecoveryEvent::Succeeded);
    assert_eq!(done, RecoveryState::Done { outcome: RecoveryOutcome::FreshAtAlternate });
    // and only its failure fails the whole operation
    let failed = recovery_step(&s, RecoveryEvent::Failed);
    assert_eq!(failed, RecoveryState::Failed);
    assert!(is_recovery_terminal(&failed));
}

#[test]
fn test_reuse_in_place_outcome() {
    let s = RecoveryState::Reusing;
    let done = recovery_step(&s, RecoveryEvent::Succeeded);
    assert_eq!(done, RecoveryState::Done { outcome: RecoveryOutcome::ReusedInPlace });
}

#[test]
fn test_unanswering_events_change_nothing() {
    let s = RecoveryState::Retrying { attempts_left: 3 };
    assert_eq!(recovery_step(&s, RecoveryEvent::PathExists), s);
    assert_eq!(recovery_step(&s, RecoveryEvent::PathFree), s);
    let done = RecoveryState::Done { outcome: RecoveryOutcome::FreshAtOriginal };
    assert_eq!(recovery_step(&done, RecoveryEvent::Failed), done);
    assert_eq!(recovery_step(&RecoveryState::Failed, RecoveryEvent::Succeeded), RecoveryState::Failed);
}

#[test]
fn test_every_answered_run_terminates() {
    // drive the machine with the most adversarial answers: every action
    // fails and every probe reports the name taken (but bounded); the
    // protocol still ends, and only in Failed or Done
    let mut s = initial_recovery_state();
    let mut steps = 0u32;
    while !is_recovery_terminal(&s) {
        let e = match recovery_action(&s) {
            Some(RecoveryAction::ProbeBackupPath { suffix }) => {
                if suffix < 3 {
                    RecoveryEvent::PathExists
                } else {
                    RecoveryEvent::PathFree
                }
            },
            Some(_) => RecoveryEvent::Failed,
            None => break,
        };
        s = recovery_step(&s, e);
        steps += 1;
        assert!(steps < 100, "the protocol must terminate quickly");
    }
    assert_eq!(s, RecoveryState::Failed);
}
