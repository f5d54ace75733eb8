use hidden_photos::session::{hidden_unlock_state, is_unlocked, lock_hidden, unlock, UnlockState};

#[test]
fn new_session_is_locked() {
    let state = UnlockState::new();
    assert!(!is_unlocked(&state));
    assert!(!hidden_unlock_state(&state));
}

#[test]
fn unlock_then_lock() {
    let mut state = UnlockState::new();
    unlock(&mut state);
    assert!(is_unlocked(&state));
    assert!(hidden_unlock_state(&state));
    lock_hidden(&mut state);
    assert!(!is_unlocked(&state));
}

#[test]
fn lock_is_idempotent() {
    let mut state = UnlockState::new();
    lock_hidden(&mut state);
    lock_hidden(&mut state);
    assert!(!is_unlocked(&state));
    unlock(&mut state);
    unlock(&mut state);
    assert!(is_unlocked(&state));
}
