use hidden_photos::pin::{
    constant_time_eq, finish_set_hidden_pin, hash_pin, hidden_pin_status, pin_configured,
    pin_record_for, set_hidden_pin, verify_hidden_pin, PinRecord, PIN_FILE_NAME,
    PIN_ITERATIONS, PIN_MAX_LEN, PIN_MIN_LEN, PIN_SALT_LEN,
};
use hidden_photos::session::{is_unlocked, unlock, UnlockState};

fn hex(bytes: &[u8]) -> String {
    bytes.iter().map(|b| format!("{:02x}", b)).collect()
}

fn sample_salt() -> Vec<u8> {
    (0u8..16).collect()
}

fn record(salt: &str, hash: &str, iterations: u32) -> PinRecord {
    PinRecord { salt: salt.to_string(), hash: hash.to_string(), iterations }
}

#[test]
fn constants_match_the_stored_format() {
    assert_eq!(PIN_ITERATIONS, 100_000);
    assert_eq!(PIN_SALT_LEN, 16);
    assert_eq!(PIN_MIN_LEN, 4);
    assert_eq!(PIN_MAX_LEN, 64);
    assert_eq!(PIN_FILE_NAME, "hidden_pin.json");
}

#[test]
fn constant_time_eq_cases() {
    assert!(constant_time_eq(b"", b""));
    assert!(constant_time_eq(b"abc", b"abc"));
    assert!(!constant_time_eq(b"abc", b"abd"));
    assert!(!constant_time_eq(b"abc", b"ab"));
    assert!(!constant_time_eq(b"", b"a"));
    assert!(!constant_time_eq(&[0x80, 0x01], &[0x00, 0x01]));
}

#[test]
fn hash_pin_one_round_is_sha256_of_salt_and_pin() {
    let digest = hash_pin(b"salt", "pin", 1);
    assert_eq!(
        hex(&digest),
        "e4ee6560f51682e2441e738f90f457bf371a15c2ffb4ed8ed19b9665a853de50"
    );
}

#[test]
fn hash_pin_zero_rounds_count_as_one() {
    assert_eq!(hash_pin(b"salt", "pin", 0), hash_pin(b"salt", "pin", 1));
}

#[test]
fn hash_pin_three_rounds() {
    let digest = hash_pin(b"salt", "pin", 3);
    assert_eq!(
        hex(&digest),
        "04a562e78675800e8d20b0e8f21c70fd493ec68f457e24b7ba4f2678f0f2d02b"
    );
    assert_eq!(digest.len(), 32);
}

#[test]
fn pin_record_for_known_salt() {
    let rec = pin_record_for(&sample_salt(), "1234");
    assert_eq!(rec.salt, "AAECAwQFBgcICQoLDA0ODw==");
    assert_eq!(rec.hash, "x2t6cpgWFNJ99oGCZxOuTG7YWQur1aDY6MDsk0dqL60=");
    assert_eq!(rec.iterations, 100_000);
}

#[test]
fn pin_configured_only_for_a_loaded_record() {
    let loaded: Result<Option<PinRecord>, String> = Ok(Some(record("a", "b", 1)));
    assert!(pin_configured(&loaded));
    assert!(hidden_pin_status(&loaded));
    let missing: Result<Option<PinRecord>, String> = Ok(None);
    assert!(!pin_configured(&missing));
    assert!(!hidden_pin_status(&missing));
    let broken: Result<Option<PinRecord>, String> = Err("Failed to parse hidden PIN file: x".to_string());
    assert!(!pin_configured(&broken));
    assert!(!hidden_pin_status(&broken));
}

#[test]
fn set_pin_refused_while_locked_with_existing_pin() {
    let state = UnlockState::new();
    let loaded: Result<Option<PinRecord>, String> = Ok(Some(record("a", "b", 1)));
    let err = set_hidden_pin(&state, &loaded, "123456").err().unwrap();
    assert_eq!(err, "Unlock hidden photos before changing the PIN");
}

#[test]
fn set_pin_allowed_when_unlocked_with_existing_pin() {
    let mut state = UnlockState::new();
    unlock(&mut state);
    let loaded: Result<Option<PinRecord>, String> = Ok(Some(record("a", "b", 1)));
    let rec = set_hidden_pin(&state, &loaded, "123456").unwrap();
    assert_eq!(rec.iterations, PIN_ITERATIONS);
}

#[test]
fn set_pin_first_time_while_locked() {
    let state = UnlockState::new();
    let loaded: Result<Option<PinRecord>, String> = Ok(None);
    assert!(set_hidden_pin(&state, &loaded, "1234").is_ok());
    let unreadable: Result<Option<PinRecord>, String> = Err("Failed to read hidden PIN file: x".to_string());
    assert!(set_hidden_pin(&state, &unreadable, "1234").is_ok());
}

#[test]
fn set_pin_length_bounds() {
    let state = UnlockState::new();
    let loaded: Result<Option<PinRecord>, String> = Ok(None);
    let msg = "PIN must be between 4 and 64 characters";
    assert_eq!(set_hidden_pin(&state, &loaded, "123").err().unwrap(), msg);
    assert_eq!(set_hidden_pin(&state, &loaded, "").err().unwrap(), msg);
    assert_eq!(set_hidden_pin(&state, &loaded, &"9".repeat(65)).err().unwrap(), msg);
    assert!(set_hidden_pin(&state, &loaded, "1234").is_ok());
    assert!(set_hidden_pin(&state, &loaded, &"9".repeat(64)).is_ok());
}

#[test]
fn set_pin_length_counts_bytes() {
    let state = UnlockState::new();
    let loaded: Result<Option<PinRecord>, String> = Ok(None);
    // Two characters, four bytes.
    assert!(set_hidden_pin(&state, &loaded, "éé").is_ok());
    // One character, two bytes.
    assert!(set_hidden_pin(&state, &loaded, "é").is_err());
}

#[test]
fn set_pin_uses_fresh_salts() {
    let state = UnlockState::new();
    let loaded: Result<Option<PinRecord>, String> = Ok(None);
    let a = set_hidden_pin(&state, &loaded, "1234").unwrap();
    let b = set_hidden_pin(&state, &loaded, "1234").unwrap();
    assert_ne!(a.salt, b.salt);
    assert_ne!(a.hash, b.hash);
    assert_eq!(a.salt.len(), 24);
}

#[test]
fn finish_set_pin_unlocks_only_after_a_write() {
    let mut state = UnlockState::new();
    let failed = finish_set_hidden_pin(&mut state, Err("Failed to write hidden PIN file: disk".to_string()));
    assert_eq!(failed, Err("Failed to write hidden PIN file: disk".to_string()));
    assert!(!is_unlocked(&state));
    assert_eq!(finish_set_hidden_pin(&mut state, Ok(())), Ok(()));
    assert!(is_unlocked(&state));
}

#[test]
fn set_then_verify_accepts_the_same_pin() {
    let mut state = UnlockState::new();
    let none: Result<Option<PinRecord>, String> = Ok(None);
    let rec = set_hidden_pin(&state, &none, "2468").unwrap();
    assert_eq!(verify_hidden_pin(&mut state, Ok(Some(rec)), "2468"), Ok(true));
    assert!(is_unlocked(&state));
}

#[test]
fn verify_rejects_another_pin_and_stays_locked() {
    let mut state = UnlockState::new();
    let rec = pin_record_for(&sample_salt(), "1234");
    assert_eq!(verify_hidden_pin(&mut state, Ok(Some(rec)), "4321"), Ok(false));
    assert!(!is_unlocked(&state));
}

#[test]
fn verify_known_record() {
    let mut state = UnlockState::new();
    let rec = record(
        "AAECAwQFBgcICQoLDA0ODw==",
        "x2t6cpgWFNJ99oGCZxOuTG7YWQur1aDY6MDsk0dqL60=",
        100_000,
    );
    assert_eq!(verify_hidden_pin(&mut state, Ok(Some(rec)), "1234"), Ok(true));
    assert!(is_unlocked(&state));
}

#[test]
fn verify_zero_iterations_uses_one_round() {
    let mut state = UnlockState::new();
    let rec = record(
        "AAECAwQFBgcICQoLDA0ODw==",
        "utC098rgjrfBtazHY6jtJSQuLJFz6B8/YksfpTA89s4=",
        0,
    );
    assert_eq!(verify_hidden_pin(&mut state, Ok(Some(rec)), "1234"), Ok(true));
}

#[test]
fn verify_keeps_an_unlocked_session_unlocked() {
    let mut state = UnlockState::new();
    unlock(&mut state);
    let rec = pin_record_for(&sample_salt(), "1234");
    assert_eq!(verify_hidden_pin(&mut state, Ok(Some(rec)), "0000"), Ok(false));
    assert!(is_unlocked(&state));
}

#[test]
fn verify_without_record() {
    let mut state = UnlockState::new();
    assert_eq!(
        verify_hidden_pin(&mut state, Ok(None), "1234"),
        Err("No hidden-photos PIN is configured".to_string())
    );
    assert_eq!(
        verify_hidden_pin(&mut state, Err("Failed to read hidden PIN file: gone".to_string()), "1234"),
        Err("Failed to read hidden PIN file: gone".to_string())
    );
    assert!(!is_unlocked(&state));
}

#[test]
fn verify_corrupt_salt_and_hash() {
    let mut state = UnlockState::new();
    assert_eq!(
        verify_hidden_pin(&mut state, Ok(Some(record("!!!!", "AAAA", 1))), "1234"),
        Err("Corrupt hidden PIN salt: Invalid symbol 33, offset 0.".to_string())
    );
    assert_eq!(
        verify_hidden_pin(&mut state, Ok(Some(record("AAAA", "A", 1))), "1234"),
        Err("Corrupt hidden PIN hash: Invalid input length: 1".to_string())
    );
    assert_eq!(
        verify_hidden_pin(&mut state, Ok(Some(record("AAA", "AAAA", 1))), "1234"),
        Err("Corrupt hidden PIN salt: Invalid padding".to_string())
    );
    assert!(!is_unlocked(&state));
}
