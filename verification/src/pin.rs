//! The app PIN: salted, iterated SHA-256 hashing, the stored record, and the
//! rules for setting and verifying a PIN.

use vstd::prelude::*;
use vstd::string::StringExecFns;
use vstd::string::StringSliceAdditionalSpecFns;
use crate::primitives::{
    base64_decode, base64_decoding, base64_encode, base64_encoding, fill_bytes, sha256,
    sha256_of, thread_rng,
};
use crate::session::{UnlockState, unlock};

verus! {

/// Name of the file, in the application's own data directory, that holds the PIN record.
pub const PIN_FILE_NAME: &'static str = "hidden_pin.json";

/// Hashing rounds used for every newly set PIN.
pub const PIN_ITERATIONS: u32 = 100_000;

/// Length in bytes of the random salt of a newly set PIN.
pub const PIN_SALT_LEN: usize = 16;

/// Shortest accepted PIN, in bytes.
pub const PIN_MIN_LEN: usize = 4;

/// Longest accepted PIN, in bytes.
pub const PIN_MAX_LEN: usize = 64;

/// The stored PIN: base64 of the salt, base64 of the digest, and the number
/// of hashing rounds.
pub struct PinRecord {
    pub salt: String,
    pub hash: String,
    pub iterations: u32,
}

/// The salted, iterated digest of a PIN: SHA-256 of salt followed by PIN,
/// then SHA-256 applied again until `iterations` rounds are done
/// (zero rounds count as one).
pub open spec fn pin_digest(salt: Seq<u8>, pin: Seq<u8>, iterations: nat) -> Seq<u8>
    decreases iterations,
{
    if iterations <= 1 {
        sha256_of(salt + pin)
    } else {
        sha256_of(pin_digest(salt, pin, (iterations - 1) as nat))
    }
}

/// Computes `pin_digest(salt, pin, iterations)`.
pub fn hash_pin(salt: &[u8], pin: &str, iterations: u32) -> (digest: Vec<u8>)
    ensures
        digest@ == pin_digest(salt@, pin.spec_bytes(), iterations as nat),
        digest@.len() == 32,
{
    let pin_bytes = pin.as_bytes();
    let mut input: Vec<u8> = vstd::slice::slice_to_vec(salt);
    let mut i: usize = 0;
    while i < pin_bytes.len()
        invariant
            i <= pin_bytes@.len(),
            input@ == salt@ + pin_bytes@.take(i as int),
        decreases pin_bytes@.len() - i,
    {
        input.push(pin_bytes[i]);
        i += 1;
        assert(input@ == salt@ + pin_bytes@.take(i as int));
    }
    assert(pin_bytes@.take(i as int) == pin_bytes@);
    let mut digest = sha256(input.as_slice());
    let mut round: u32 = 1;
    while round < iterations
        invariant
            1 <= round,
            round <= iterations || round == 1,
            digest@ == pin_digest(salt@, pin.spec_bytes(), round as nat),
            digest@.len() == 32,
        decreases iterations - round,
    {
        digest = sha256(digest.as_slice());
        round += 1;
    }
    digest
}

/// Compares two byte strings without stopping at the first difference.
pub fn constant_time_eq(a: &[u8], b: &[u8]) -> (equal: bool)
    ensures
        equal == (a@ == b@),
{
    if a.len() != b.len() {
        return false;
    }
    let mut acc: u8 = 0;
    let mut i: usize = 0;
    while i < a.len()
        invariant
            i <= a@.len(),
            a@.len() == b@.len(),
            (acc == 0) <==> (forall|j: int| 0 <= j < i ==> a@[j] == b@[j]),
        decreases a@.len() - i,
    {
        let x = a[i];
        let y = b[i];
        let next = acc | (x ^ y);
        assert((next == 0) <==> (acc == 0 && x == y)) by (bit_vector)
            requires
                next == acc | (x ^ y),
        ;
        acc = next;
        i += 1;
    }
    if acc == 0 {
        assert(a@ =~= b@);
        true
    } else {
        false
    }
}

/// A record holds `salt`, the digest of `pin` under `salt` with
/// `PIN_ITERATIONS` rounds, and `PIN_ITERATIONS`.
pub open spec fn record_encodes(record: PinRecord, salt: Seq<u8>, pin: Seq<u8>) -> bool {
    &&& record.salt@ == base64_encoding(salt)
    &&& record.hash@ == base64_encoding(pin_digest(salt, pin, PIN_ITERATIONS as nat))
    &&& record.iterations == PIN_ITERATIONS
}

/// A record that was made for `pin`: it encodes `pin` under some salt of
/// `PIN_SALT_LEN` bytes, and both of its texts decode back to what was encoded.
pub open spec fn issued_for(record: PinRecord, pin: Seq<u8>) -> bool {
    exists|salt: Seq<u8>|
        {
            &&& salt.len() == PIN_SALT_LEN
            &&& #[trigger] record_encodes(record, salt, pin)
            &&& base64_decoding(record.salt@) == Ok::<Seq<u8>, Seq<char>>(salt)
            &&& base64_decoding(record.hash@) == Ok::<Seq<u8>, Seq<char>>(
                pin_digest(salt, pin, PIN_ITERATIONS as nat),
            )
        }
}

/// Builds the record of `pin` under the given salt.
pub fn pin_record_for(salt: &[u8], pin: &str) -> (record: PinRecord)
    requires
        salt@.len() <= usize::MAX / 2,
    ensures
        record_encodes(record, salt@, pin.spec_bytes()),
        base64_decoding(record.salt@) == Ok::<Seq<u8>, Seq<char>>(salt@),
        base64_decoding(record.hash@) == Ok::<Seq<u8>, Seq<char>>(
            pin_digest(salt@, pin.spec_bytes(), PIN_ITERATIONS as nat),
        ),
{
    let digest = hash_pin(salt, pin, PIN_ITERATIONS);
    let salt_text = base64_encode(salt);
    let hash_text = base64_encode(digest.as_slice());
    PinRecord { salt: salt_text, hash: hash_text, iterations: PIN_ITERATIONS }
}

/// The message of a refused PIN change while a PIN exists and the session is locked.
pub open spec fn locked_change_message() -> Seq<char> {
    "Unlock hidden photos before changing the PIN"@
}

/// The message of a PIN whose length is out of bounds.
pub open spec fn pin_length_message() -> Seq<char> {
    "PIN must be between 4 and 64 characters"@
}

/// The message when no PIN is stored.
pub open spec fn no_pin_message() -> Seq<char> {
    "No hidden-photos PIN is configured"@
}

/// Checks a new PIN and builds its record with a fresh random salt.
///
/// `loaded` is what reading the stored record gave. Once a PIN exists (a
/// record was loaded), it can only be replaced while the session is unlocked. The PIN must be `PIN_MIN_LEN..=PIN_MAX_LEN` bytes long.
/// The caller stores the record and then reports the outcome to
/// [`finish_set_hidden_pin`].
pub fn set_hidden_pin(
    state: &UnlockState,
    loaded: &Result<Option<PinRecord>, String>,
    pin: &str,
) -> (result: Result<PinRecord, String>)
    ensures
        (loaded matches Ok(Some(_))) && !state@ ==> (result matches Err(m) && m@ == locked_change_message()),
        !((loaded matches Ok(Some(_))) && !state@) && (pin.spec_bytes().len() < PIN_MIN_LEN
            || pin.spec_bytes().len() > PIN_MAX_LEN) ==> (result matches Err(m) && m@
            == pin_length_message()),
        !((loaded matches Ok(Some(_))) && !state@) && PIN_MIN_LEN <= pin.spec_bytes().len() <= PIN_MAX_LEN
            ==> (result matches Ok(record) && issued_for(record, pin.spec_bytes())),
{
    if pin_configured(loaded) && !crate::session::is_unlocked(state) {
        return Err(String::from_str("Unlock hidden photos before changing the PIN"));
    }
    let pin_len = pin.as_bytes().len();
    if pin_len < PIN_MIN_LEN || pin_len > PIN_MAX_LEN {
        return Err(String::from_str("PIN must be between 4 and 64 characters"));
    }
    let mut salt: Vec<u8> = vec![0u8; PIN_SALT_LEN];
    let mut rng = thread_rng();
    fill_bytes(&mut rng, &mut salt);
    let record = pin_record_for(salt.as_slice(), pin);
    Ok(record)
}

/// Completes a PIN change once the caller has tried to store the record:
/// a successful write unlocks the session, a failed one changes nothing.
pub fn finish_set_hidden_pin(state: &mut UnlockState, stored: Result<(), String>) -> (result:
    Result<(), String>)
    ensures
        stored is Ok ==> result is Ok && final(state)@,
        stored matches Err(e) ==> (result matches Err(m) && m@ == e@ && final(state)@ == old(
            state,
        )@),
{
    match stored {
        Ok(()) => {
            unlock(state);
            Ok(())
        },
        Err(e) => Err(e),
    }
}

/// The number of hashing rounds used for a record that asks for `iterations`:
/// at least one.
pub open spec fn rounds_used(iterations: u32) -> nat {
    if iterations >= 1 {
        iterations as nat
    } else {
        1
    }
}

/// What verifying `pin` against a stored record gives: the salt and the
/// digest are decoded from base64 (a failure is reported with its cause),
/// and the PIN is accepted when its digest, with at least one round,
/// equals the stored one.
pub open spec fn verify_outcome(record: PinRecord, pin: Seq<u8>) -> Result<bool, Seq<char>> {
    match base64_decoding(record.salt@) {
        Err(cause) => Err("Corrupt hidden PIN salt: "@ + cause),
        Ok(salt) => match base64_decoding(record.hash@) {
            Err(cause) => Err("Corrupt hidden PIN hash: "@ + cause),
            Ok(expected) => Ok(pin_digest(salt, pin, rounds_used(record.iterations)) == expected),
        },
    }
}

/// A result with its message taken by view.
pub open spec fn result_view<T>(result: Result<T, String>) -> Result<T, Seq<char>> {
    match result {
        Ok(v) => Ok(v),
        Err(m) => Err(m@),
    }
}

/// Whether a record could be loaded: `Ok(Some(_))`.
pub fn pin_configured(loaded: &Result<Option<PinRecord>, String>) -> (configured: bool)
    ensures
        configured == (loaded matches Ok(Some(_))),
{
    match loaded {
        Ok(Some(_)) => true,
        _ => false,
    }
}

/// Whether a PIN is configured, as reported to the user interface.
pub fn hidden_pin_status(loaded: &Result<Option<PinRecord>, String>) -> (configured: bool)
    ensures
        configured == (loaded matches Ok(Some(_))),
{
    pin_configured(loaded)
}

/// Appends `cause` to `prefix`.
fn prefixed(prefix: &str, cause: String) -> (message: String)
    ensures
        message@ == prefix@ + cause@,
{
    let mut message = String::from_str(prefix);
    message.append(cause.as_str());
    message
}

/// Verifies `pin` against the loaded record and unlocks the session when it matches.
///
/// A failure to load is passed on; a missing record is an error.
pub fn verify_hidden_pin(
    state: &mut UnlockState,
    loaded: Result<Option<PinRecord>, String>,
    pin: &str,
) -> (result: Result<bool, String>)
    ensures
        loaded matches Err(e) ==> (result matches Err(m) && m@ == e@),
        loaded matches Ok(None) ==> (result matches Err(m) && m@ == no_pin_message()),
        loaded matches Ok(Some(record)) ==> result_view(result) == verify_outcome(
            record,
            pin.spec_bytes(),
        ),
        loaded matches Ok(Some(record)) ==> (base64_decoding(record.salt@) matches Ok(salt)
            ==> (base64_decoding(record.hash@) matches Ok(expected) ==> result == Ok::<
            bool,
            String,
        >(pin_digest(salt, pin.spec_bytes(), rounds_used(record.iterations)) == expected))),
        final(state)@ == (old(state)@ || result == Ok::<bool, String>(true)),
{
    let record = match loaded {
        Err(e) => return Err(e),
        Ok(None) => return Err(String::from_str("No hidden-photos PIN is configured")),
        Ok(Some(record)) => record,
    };
    let salt = match base64_decode(record.salt.as_str()) {
        Ok(salt) => salt,
        Err(cause) => return Err(prefixed("Corrupt hidden PIN salt: ", cause)),
    };
    let expected = match base64_decode(record.hash.as_str()) {
        Ok(expected) => expected,
        Err(cause) => return Err(prefixed("Corrupt hidden PIN hash: ", cause)),
    };
    let iterations = if record.iterations >= 1 {
        record.iterations
    } else {
        1
    };
    let digest = hash_pin(salt.as_slice(), pin, iterations);
    let ok = constant_time_eq(digest.as_slice(), expected.as_slice());
    if ok {
        unlock(state);
    }
    Ok(ok)
}

/// A record issued for a PIN is accepted when that same PIN is verified against it.
pub proof fn lemma_issued_record_accepts_its_pin(record: PinRecord, pin: Seq<u8>)
    requires
        issued_for(record, pin),
    ensures
        verify_outcome(record, pin) == Ok::<bool, Seq<char>>(true),
{
    let salt = choose|salt: Seq<u8>|
        {
            &&& salt.len() == PIN_SALT_LEN
            &&& #[trigger] record_encodes(record, salt, pin)
            &&& base64_decoding(record.salt@) == Ok::<Seq<u8>, Seq<char>>(salt)
            &&& base64_decoding(record.hash@) == Ok::<Seq<u8>, Seq<char>>(
                pin_digest(salt, pin, PIN_ITERATIONS as nat),
            )
        };
}

/// Zero hashing rounds give the same digest as one.
pub proof fn lemma_zero_rounds_is_one_round(salt: Seq<u8>, pin: Seq<u8>)
    ensures
        pin_digest(salt, pin, 0) == pin_digest(salt, pin, 1),
{
}


/// The PIN digest, round by round: the first round hashes the salt followed
/// by every byte of the PIN, each further round hashes the previous digest,
/// and zero rounds count as one.
pub proof fn lemma_pin_digest_rounds(salt: Seq<u8>, pin: Seq<u8>, n: nat)
    ensures
        pin_digest(salt, pin, 0) == sha256_of(salt + pin),
        pin_digest(salt, pin, 1) == sha256_of(salt + pin),
        n >= 1 ==> pin_digest(salt, pin, n + 1) == sha256_of(pin_digest(salt, pin, n)),
{
}

/// SHA-256 applied `k` times to `data`.
pub open spec fn sha256_repeated(data: Seq<u8>, k: nat) -> Seq<u8>
    decreases k,
{
    if k == 0 {
        data
    } else {
        sha256_of(sha256_repeated(data, (k - 1) as nat))
    }
}

/// With `n >= 1` rounds, the PIN digest is SHA-256 of the salt followed by the
/// whole PIN, hashed `n - 1` more times.
pub proof fn lemma_pin_digest_is_repeated_sha256(salt: Seq<u8>, pin: Seq<u8>, n: nat)
    requires
        n >= 1,
    ensures
        pin_digest(salt, pin, n) == sha256_repeated(sha256_of(salt + pin), (n - 1) as nat),
    decreases n,
{
    if n > 1 {
        lemma_pin_digest_is_repeated_sha256(salt, pin, (n - 1) as nat);
    }
}

/// For a record whose salt and hash decode, verification accepts exactly when
/// the digest of the salt followed by every byte of the entered PIN, with
/// `max(iterations, 1)` rounds, equals the stored digest; there is no other way
/// to be accepted.
pub proof fn lemma_verify_compares_full_digest(
    record: PinRecord,
    pin: Seq<u8>,
    salt: Seq<u8>,
    expected: Seq<u8>,
)
    requires
        base64_decoding(record.salt@) == Ok::<Seq<u8>, Seq<char>>(salt),
        base64_decoding(record.hash@) == Ok::<Seq<u8>, Seq<char>>(expected),
    ensures
        verify_outcome(record, pin) == Ok::<bool, Seq<char>>(
            sha256_repeated(
                sha256_of(salt + pin),
                (if record.iterations >= 1 {
                    record.iterations - 1
                } else {
                    0
                }) as nat,
            ) == expected,
        ),
{
    let n: nat = if record.iterations >= 1 {
        record.iterations as nat
    } else {
        1
    };
    lemma_pin_digest_is_repeated_sha256(salt, pin, n);
}

/// A record issued for PIN `set` answers every entered PIN: `set` itself is
/// accepted, and another PIN is accepted only when its digest under the
/// record's salt is the digest of `set`.
pub proof fn lemma_issued_record_compares_pins(record: PinRecord, set: Seq<u8>, entered: Seq<u8>)
    requires
        issued_for(record, set),
    ensures
        record.iterations == 100_000,
        verify_outcome(record, entered) is Ok,
        set == entered ==> verify_outcome(record, entered) == Ok::<bool, Seq<char>>(true),
        verify_outcome(record, entered) == Ok::<bool, Seq<char>>(true) ==> exists|salt: Seq<u8>|
            salt.len() == 16 && #[trigger] sha256_repeated(sha256_of(salt + entered), 99_999)
                == sha256_repeated(sha256_of(salt + set), 99_999),
{
    let salt = choose|salt: Seq<u8>|
        {
            &&& salt.len() == PIN_SALT_LEN
            &&& #[trigger] record_encodes(record, salt, set)
            &&& base64_decoding(record.salt@) == Ok::<Seq<u8>, Seq<char>>(salt)
            &&& base64_decoding(record.hash@) == Ok::<Seq<u8>, Seq<char>>(
                pin_digest(salt, set, PIN_ITERATIONS as nat),
            )
        };
    lemma_pin_digest_is_repeated_sha256(salt, set, PIN_ITERATIONS as nat);
    lemma_pin_digest_is_repeated_sha256(salt, entered, PIN_ITERATIONS as nat);
    lemma_verify_compares_full_digest(
        record,
        entered,
        salt,
        pin_digest(salt, set, PIN_ITERATIONS as nat),
    );
}

} // verus!
