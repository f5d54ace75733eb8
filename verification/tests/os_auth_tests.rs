use hidden_photos::os_auth::{
    hello_availability_outcome, hello_verification_outcome, local_auth_availability_outcome,
    local_auth_reply_outcome, unlock_hidden, HelloAvailability, HelloVerification, OsAuth,
};
use hidden_photos::pin::PinRecord;
use hidden_photos::session::{is_unlocked, unlock, UnlockState};

fn no_pin() -> Result<Option<PinRecord>, String> {
    Ok(None)
}

fn some_pin() -> Result<Option<PinRecord>, String> {
    Ok(Some(PinRecord { salt: "AAAA".to_string(), hash: "AAAA".to_string(), iterations: 1 }))
}

#[test]
fn already_unlocked_reports_unlocked_without_prompt() {
    let mut state = UnlockState::new();
    unlock(&mut state);
    let outcome = unlock_hidden(&mut state, None, &some_pin()).unwrap();
    assert_eq!(outcome.status, "unlocked");
    assert!(outcome.pin_configured);
    assert!(is_unlocked(&state));
}

#[test]
fn verified_user_unlocks() {
    let mut state = UnlockState::new();
    let outcome = unlock_hidden(&mut state, Some(Ok(OsAuth::Verified)), &no_pin()).unwrap();
    assert_eq!(outcome.status, "unlocked");
    assert!(!outcome.pin_configured);
    assert!(is_unlocked(&state));
}

#[test]
fn unavailable_os_auth_asks_for_pin() {
    let mut state = UnlockState::new();
    let outcome = unlock_hidden(&mut state, Some(Ok(OsAuth::Unavailable)), &some_pin()).unwrap();
    assert_eq!(outcome.status, "pin_required");
    assert!(outcome.pin_configured);
    assert!(!is_unlocked(&state));
}

#[test]
fn cancelled_prompt_stays_locked() {
    let mut state = UnlockState::new();
    let outcome = unlock_hidden(&mut state, Some(Ok(OsAuth::Cancelled)), &no_pin()).unwrap();
    assert_eq!(outcome.status, "cancelled");
    assert!(!is_unlocked(&state));
}

#[test]
fn os_auth_error_is_passed_on() {
    let mut state = UnlockState::new();
    let err = unlock_hidden(
        &mut state,
        Some(Err("Windows Hello verification failed: busy".to_string())),
        &no_pin(),
    )
    .err()
    .unwrap();
    assert_eq!(err, "Windows Hello verification failed: busy");
    assert!(!is_unlocked(&state));
}

#[test]
fn unreadable_pin_file_counts_as_unconfigured() {
    let mut state = UnlockState::new();
    let outcome = unlock_hidden(
        &mut state,
        Some(Ok(OsAuth::Unavailable)),
        &Err("Failed to parse hidden PIN file: x".to_string()),
    )
    .unwrap();
    assert!(!outcome.pin_configured);
}

#[test]
fn windows_hello_availability() {
    assert_eq!(hello_availability_outcome(HelloAvailability::Available), None);
    for a in [
        HelloAvailability::DeviceNotPresent,
        HelloAvailability::NotConfiguredForUser,
        HelloAvailability::DisabledByPolicy,
        HelloAvailability::DeviceBusy,
    ] {
        assert_eq!(hello_availability_outcome(a), Some(OsAuth::Unavailable));
    }
}

#[test]
fn windows_hello_verification() {
    assert_eq!(hello_verification_outcome(HelloVerification::Verified), OsAuth::Verified);
    assert_eq!(hello_verification_outcome(HelloVerification::DeviceNotPresent), OsAuth::Unavailable);
    assert_eq!(hello_verification_outcome(HelloVerification::NotConfiguredForUser), OsAuth::Unavailable);
    assert_eq!(hello_verification_outcome(HelloVerification::DisabledByPolicy), OsAuth::Cancelled);
    assert_eq!(hello_verification_outcome(HelloVerification::DeviceBusy), OsAuth::Cancelled);
    assert_eq!(hello_verification_outcome(HelloVerification::RetriesExhausted), OsAuth::Cancelled);
    assert_eq!(hello_verification_outcome(HelloVerification::Canceled), OsAuth::Cancelled);
}

#[test]
fn local_authentication_outcomes() {
    assert_eq!(local_auth_availability_outcome(true), None);
    assert_eq!(local_auth_availability_outcome(false), Some(OsAuth::Unavailable));
    assert_eq!(local_auth_reply_outcome(Some(true)), OsAuth::Verified);
    assert_eq!(local_auth_reply_outcome(Some(false)), OsAuth::Cancelled);
    assert_eq!(local_auth_reply_outcome(None), OsAuth::Cancelled);
}
