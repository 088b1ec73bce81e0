use sync_toolkit::lock::MutualExclusionLock;

#[test]
fn acquire_grants_exclusive_access() {
    let mut l = MutualExclusionLock::create(0u64);
    let g = l.acquire().unwrap();
    assert_eq!(*g.read(), 0);
    assert!(l.try_acquire().is_none());
    l.release(g);
    assert!(l.try_acquire().is_some());
}

#[test]
fn guarded_increments_are_all_counted() {
    let mut l = MutualExclusionLock::create(0u64);
    let parties: u64 = 5;
    for _ in 0..parties {
        let mut g = l.acquire().unwrap();
        let seen = *g.read();
        g.write(seen + 1);
        l.release(g);
    }
    let g = l.acquire().unwrap();
    assert_eq!(*g.read(), parties);
    l.release(g);
}

#[test]
fn poisoned_lock_surfaces_poison_on_next_acquire() {
    let mut l = MutualExclusionLock::create(10u32);
    let mut g = l.acquire().unwrap();
    g.write(11);
    l.release_poisoned(g);
    assert!(l.is_poisoned());
    let e = l.acquire().expect_err("a poisoned lock must not grant a clean guard");
    let g = e.into_guard();
    assert_eq!(*g.read(), 11);
    l.release(g);
    assert!(l.is_poisoned());
}

#[test]
fn try_acquire_surfaces_poison_too() {
    let mut l = MutualExclusionLock::create(3u8);
    let g = l.acquire().unwrap();
    l.release_poisoned(g);
    match l.try_acquire() {
        Some(Err(e)) => assert_eq!(*e.into_guard().read(), 3),
        _ => panic!("expected a poisoned grant"),
    }
}

#[test]
fn try_acquire_on_contended_lock_returns_none() {
    let mut l = MutualExclusionLock::create('a');
    let g = match l.try_acquire() {
        Some(Ok(g)) => g,
        _ => panic!("free lock must grant"),
    };
    assert!(l.try_acquire().is_none());
    l.release(g);
}
