use sync_toolkit::once::{BeginOutcome, OneTimeInitializer};

#[test]
fn first_caller_runs_and_later_callers_do_not() {
    let mut once = OneTimeInitializer::create();
    let mut sentinel: u32 = 0;

    assert_eq!(once.try_begin(), BeginOutcome::MustRun);
    assert_eq!(once.try_begin(), BeginOutcome::Wait);
    sentinel += 1;
    once.complete();

    assert_eq!(once.try_begin(), BeginOutcome::AlreadyDone);
    assert_eq!(once.try_begin(), BeginOutcome::AlreadyDone);
    assert_eq!(sentinel, 1);
    assert!(once.is_complete());
}

#[test]
fn concurrent_callers_wait_while_running() {
    let mut once = OneTimeInitializer::create();
    assert_eq!(once.try_begin(), BeginOutcome::MustRun);
    assert_eq!(once.try_begin(), BeginOutcome::Wait);
    assert_eq!(once.try_begin(), BeginOutcome::Wait);
    once.complete();
    assert_eq!(once.try_begin(), BeginOutcome::AlreadyDone);
}

#[test]
fn abnormal_termination_poisons_every_later_call() {
    let mut once = OneTimeInitializer::create();
    assert_eq!(once.try_begin(), BeginOutcome::MustRun);
    once.poison();
    assert!(once.is_poisoned());
    assert_eq!(once.try_begin(), BeginOutcome::Failed);
    assert_eq!(once.try_begin(), BeginOutcome::Failed);
    assert!(!once.is_complete());
}
