use firmware_core::guard::AcquireOutcome;
use firmware_core::guard::GuardError;
use firmware_core::guard::PeripheralGuard;

#[test]
fn with_exclusive_without_driver_yields_none() {
    // Absent-state check: no driver installed, the call answers at once.
    let mut guard: PeripheralGuard<u64> = PeripheralGuard::new();
    let r = guard.with_exclusive(0, |d| (d, d + 1));
    assert!(r.is_none());
}

#[test]
fn install_then_with_exclusive_runs_scope() {
    let mut guard: PeripheralGuard<u64> = PeripheralGuard::new();
    assert_eq!(guard.install(41), Ok(()));
    let r = guard.with_exclusive(0, |d| (d + 1, d));
    assert_eq!(r, Some(41));
    let r2 = guard.with_exclusive(1, |d| (d, d));
    assert_eq!(r2, Some(42));
}

#[test]
fn second_install_fails_and_keeps_driver() {
    let mut guard: PeripheralGuard<u64> = PeripheralGuard::new();
    assert_eq!(guard.install(7), Ok(()));
    assert_eq!(guard.install(8), Err(GuardError::AlreadyInstalled));
    let r = guard.with_exclusive(0, |d| (d, d));
    assert_eq!(r, Some(7));
}

#[test]
fn acquisition_is_mutually_exclusive() {
    // Mutual exclusion: one grant at a time; everyone else blocks until release.
    let mut guard: PeripheralGuard<u64> = PeripheralGuard::new();
    assert_eq!(guard.try_acquire(0), AcquireOutcome::NoDriver);
    guard.install(1).unwrap();
    assert_eq!(guard.try_acquire(0), AcquireOutcome::Granted);
    assert_eq!(guard.try_acquire(1), AcquireOutcome::Blocked);
    assert_eq!(guard.try_acquire(2), AcquireOutcome::Blocked);
    // Reentrant attempts by the holder itself block too: the deadlock hazard.
    assert_eq!(guard.try_acquire(0), AcquireOutcome::Blocked);
    // Only the holder can release.
    assert!(!guard.release(1));
    assert_eq!(guard.try_acquire(1), AcquireOutcome::Blocked);
    assert!(guard.release(0));
    // After release the next attempt is granted again.
    assert_eq!(guard.try_acquire(1), AcquireOutcome::Granted);
}

#[test]
fn console_scopes_are_sequential() {
    // Two cores use the console guard one after the other: the later scope
    // observes the earlier one's effects fully completed.
    let mut console: PeripheralGuard<Vec<u64>> = PeripheralGuard::new();
    console.install(Vec::new()).unwrap();
    let r0 = console.with_exclusive(0, |mut buf| {
        buf.push(10);
        buf.push(11);
        (buf, ())
    });
    assert_eq!(r0, Some(()));
    let r1 = console.with_exclusive(1, |mut buf| {
        let seen = buf.clone();
        buf.push(12);
        (buf, seen)
    });
    assert_eq!(r1, Some(vec![10, 11]));
    let r2 = console.with_exclusive(0, |buf| {
        let seen = buf.clone();
        (buf, seen)
    });
    assert_eq!(r2, Some(vec![10, 11, 12]));
}
