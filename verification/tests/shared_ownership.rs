use sync_toolkit::shared::{SharedOwnership, UpgradeError};

#[test]
fn value_reclaimed_exactly_at_last_drop() {
    let mut s = SharedOwnership::create(46u64);
    s.clone_handle();
    s.clone_handle();
    assert_eq!(s.strong_count(), 3);
    assert!(s.drop_handle().is_none());
    assert!(s.drop_handle().is_none());
    assert_eq!(s.drop_handle(), Some(46));
    assert_eq!(s.strong_count(), 0);
}

#[test]
fn get_reads_the_shared_value() {
    let mut s = SharedOwnership::create(String::from("shared"));
    s.clone_handle();
    assert_eq!(s.get(), "shared");
    assert!(s.drop_handle().is_none());
    assert_eq!(s.get(), "shared");
}

#[test]
fn upgrade_succeeds_while_value_alive() {
    let mut s = SharedOwnership::create(7u32);
    s.downgrade();
    assert_eq!(s.weak_count(), 1);
    assert_eq!(s.upgrade(), Ok(()));
    assert_eq!(s.strong_count(), 2);
    assert!(s.drop_handle().is_none());
    assert_eq!(s.drop_handle(), Some(7));
}

#[test]
fn upgrade_fails_expired_after_last_strong_drop() {
    let mut s = SharedOwnership::create(5u8);
    s.downgrade();
    assert_eq!(s.drop_handle(), Some(5));
    assert_eq!(s.upgrade(), Err(UpgradeError::Expired));
    assert!(s.drop_weak());
}

#[test]
fn weak_handle_does_not_keep_value_alive() {
    let mut s = SharedOwnership::create(1i32);
    s.downgrade();
    s.downgrade();
    assert_eq!(s.drop_handle(), Some(1));
    assert!(!s.drop_weak());
    assert!(s.drop_weak());
}
