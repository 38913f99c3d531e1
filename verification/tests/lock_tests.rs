use fersk::lock::{format_pid, parse_pid, LockAction, LockEvent, PidLock};

#[test]
fn pid_round_trip() {
    for pid in [0u32, 1, 7, 10, 99, 12345, 4294967295] {
        assert_eq!(parse_pid(&format_pid(pid)), Some(pid));
    }
}

#[test]
fn format_pid_is_plain_decimal() {
    assert_eq!(format_pid(0), "0");
    assert_eq!(format_pid(42), "42");
    assert_eq!(format_pid(4294967295), "4294967295");
}

#[test]
fn parse_pid_rejects_bad_texts() {
    assert_eq!(parse_pid(""), None);
    assert_eq!(parse_pid("abc"), None);
    assert_eq!(parse_pid("12x"), None);
    assert_eq!(parse_pid("-5"), None);
    assert_eq!(parse_pid("4294967296"), None);
    assert_eq!(parse_pid("99999999999"), None);
    assert_eq!(parse_pid("00000000001"), None);
}

#[test]
fn parse_pid_accepts_leading_zeros_within_width() {
    assert_eq!(parse_pid("007"), Some(7));
}

#[test]
fn fresh_lock_is_granted_at_once() {
    let (mut lock, first) = PidLock::acquire_start("/wr/.locks/abc.pid".to_string(), 4242);
    match first {
        LockAction::CreateExclusive(path, contents) => {
            assert_eq!(path, "/wr/.locks/abc.pid");
            assert_eq!(contents, "4242");
        }
        _ => panic!("expected the atomic create"),
    }
    let next = lock.step(LockEvent::Created(true));
    assert!(next.is_none());
    assert!(lock.is_held());
}

#[test]
fn stale_lock_is_reclaimed() {
    let (mut lock, _) = PidLock::acquire_start("/wr/.locks/abc.pid".to_string(), 4242);
    let read = lock.step(LockEvent::Created(false));
    assert!(matches!(read, Some(LockAction::ReadFile(_))));
    let alive = lock.step(LockEvent::ReadResult(Some("314159\n".to_string())));
    match alive {
        Some(LockAction::CheckAlive(pid)) => assert_eq!(pid, 314159),
        _ => panic!("expected the liveness check"),
    }
    let remove = lock.step(LockEvent::Alive(false));
    assert!(matches!(remove, Some(LockAction::RemoveFile(_))));
    let recreate = lock.step(LockEvent::Removed(true));
    match recreate {
        Some(LockAction::CreateExclusive(_, contents)) => assert_eq!(contents, "4242"),
        _ => panic!("expected the second atomic create"),
    }
    let done = lock.step(LockEvent::Created(true));
    assert!(done.is_none());
    assert!(lock.is_held());
    assert!(!lock.is_contended());
}

#[test]
fn live_lock_is_contended() {
    let (mut lock, _) = PidLock::acquire_start("/wr/.locks/abc.pid".to_string(), 4242);
    lock.step(LockEvent::Created(false));
    lock.step(LockEvent::ReadResult(Some("314159".to_string())));
    let outcome = lock.step(LockEvent::Alive(true));
    assert!(outcome.is_none());
    assert!(lock.is_contended());
    assert!(!lock.is_held());
}

#[test]
fn corrupt_lock_file_counts_as_stale() {
    let (mut lock, _) = PidLock::acquire_start("/wr/.locks/abc.pid".to_string(), 4242);
    lock.step(LockEvent::Created(false));
    let remove = lock.step(LockEvent::ReadResult(Some("not a pid".to_string())));
    assert!(matches!(remove, Some(LockAction::RemoveFile(_))));
    lock.step(LockEvent::Removed(true));
    lock.step(LockEvent::Created(true));
    assert!(lock.is_held());
}

#[test]
fn vanished_lock_file_retries_the_create() {
    let (mut lock, _) = PidLock::acquire_start("/wr/.locks/abc.pid".to_string(), 4242);
    lock.step(LockEvent::Created(false));
    let recreate = lock.step(LockEvent::ReadResult(None));
    assert!(matches!(recreate, Some(LockAction::CreateExclusive(_, _))));
    lock.step(LockEvent::Created(true));
    assert!(lock.is_held());
}

#[test]
fn losing_the_reclamation_race_is_contention() {
    let (mut lock, _) = PidLock::acquire_start("/wr/.locks/abc.pid".to_string(), 4242);
    lock.step(LockEvent::Created(false));
    lock.step(LockEvent::ReadResult(Some("314159".to_string())));
    lock.step(LockEvent::Alive(false));
    lock.step(LockEvent::Removed(true));
    let outcome = lock.step(LockEvent::Created(false));
    assert!(outcome.is_none());
    assert!(lock.is_contended());
    assert!(!lock.is_held());
}
