//! The decisions around an OS-level unlock (Touch ID, Windows Hello): how the
//! platform's answers map to an outcome, and what `unlock_hidden` reports.

use vstd::prelude::*;
use crate::pin::{PinRecord, pin_configured};
use crate::session::{UnlockState, is_unlocked, unlock};

verus! {

/// The outcome of asking the operating system to authenticate the user.
#[derive(PartialEq, Eq, Structural, Clone, Copy, Debug)]
pub enum OsAuth {
    /// The user was verified.
    Verified,
    /// No OS-level authentication is available: the caller falls back to the PIN.
    Unavailable,
    /// The user dismissed or failed the prompt.
    Cancelled,
}

/// What `unlock_hidden` reports: `status` is one of `"unlocked"`,
/// `"pin_required"` or `"cancelled"`.
pub struct UnlockOutcome {
    pub status: &'static str,
    pub pin_configured: bool,
}

/// The status text reported for an OS authentication outcome.
pub open spec fn status_of(auth: OsAuth) -> Seq<char> {
    match auth {
        OsAuth::Verified => "unlocked"@,
        OsAuth::Unavailable => "pin_required"@,
        OsAuth::Cancelled => "cancelled"@,
    }
}

/// Tries to unlock the session.
///
/// An unlocked session reports `"unlocked"` at once, and `os_auth` is not
/// looked at (the caller passes `None`: no prompt is shown). A locked session
/// needs the result of the OS prompt: an error is passed on, a verified user
/// unlocks the session, and otherwise the session stays locked. `loaded` is
/// what reading the stored PIN record gave; the outcome reports whether one exists.
pub fn unlock_hidden(
    state: &mut UnlockState,
    os_auth: Option<Result<OsAuth, String>>,
    loaded: &Result<Option<PinRecord>, String>,
) -> (result: Result<UnlockOutcome, String>)
    requires
        old(state)@ || os_auth is Some,
    ensures
        old(state)@ ==> (result matches Ok(outcome) && outcome.status@ == "unlocked"@
            && outcome.pin_configured == (loaded matches Ok(Some(_)))),
        !old(state)@ ==> match os_auth.unwrap() {
            Err(e) => result matches Err(m) && m@ == e@,
            Ok(auth) => result matches Ok(outcome) && outcome.status@ == status_of(auth)
                && outcome.pin_configured == (loaded matches Ok(Some(_))),
        },
        final(state)@ == (old(state)@ || os_auth == Some(Ok::<OsAuth, String>(OsAuth::Verified))),
{
    if is_unlocked(state) {
        return Ok(UnlockOutcome { status: "unlocked", pin_configured: pin_configured(loaded) });
    }
    let auth = match os_auth {
        Some(Ok(auth)) => auth,
        Some(Err(e)) => return Err(e),
        None => {
            assert(false);
            return Err(String::new());
        },
    };
    let status = match auth {
        OsAuth::Verified => {
            unlock(state);
            "unlocked"
        },
        OsAuth::Unavailable => "pin_required",
        OsAuth::Cancelled => "cancelled",
    };
    Ok(UnlockOutcome { status, pin_configured: pin_configured(loaded) })
}

/// Windows Hello's availability answer (`UserConsentVerifierAvailability`).
#[derive(PartialEq, Eq, Structural, Clone, Copy, Debug)]
pub enum HelloAvailability {
    Available,
    DeviceNotPresent,
    NotConfiguredForUser,
    DisabledByPolicy,
    DeviceBusy,
}

/// Windows Hello's verification answer (`UserConsentVerificationResult`).
#[derive(PartialEq, Eq, Structural, Clone, Copy, Debug)]
pub enum HelloVerification {
    Verified,
    DeviceNotPresent,
    NotConfiguredForUser,
    DisabledByPolicy,
    DeviceBusy,
    RetriesExhausted,
    Canceled,
}

/// Before prompting: an unavailable Windows Hello ends the attempt as
/// `Unavailable`; `None` means the prompt goes ahead.
pub fn hello_availability_outcome(availability: HelloAvailability) -> (outcome: Option<OsAuth>)
    ensures
        outcome == (if availability == HelloAvailability::Available {
            None
        } else {
            Some(OsAuth::Unavailable)
        }),
{
    match availability {
        HelloAvailability::Available => None,
        _ => Some(OsAuth::Unavailable),
    }
}

/// The outcome of a Windows Hello prompt: verified is `Ok`, a missing or
/// unconfigured device is `Unavailable`, anything else is `Cancelled`.
pub fn hello_verification_outcome(verification: HelloVerification) -> (outcome: OsAuth)
    ensures
        outcome == match verification {
            HelloVerification::Verified => OsAuth::Verified,
            HelloVerification::DeviceNotPresent => OsAuth::Unavailable,
            HelloVerification::NotConfiguredForUser => OsAuth::Unavailable,
            _ => OsAuth::Cancelled,
        },
{
    match verification {
        HelloVerification::Verified => OsAuth::Verified,
        HelloVerification::DeviceNotPresent | HelloVerification::NotConfiguredForUser => {
            OsAuth::Unavailable
        },
        _ => OsAuth::Cancelled,
    }
}

/// Before prompting on macOS: when the device-owner policy cannot be
/// evaluated the attempt ends as `Unavailable`; `None` means the prompt goes ahead.
pub fn local_auth_availability_outcome(can_evaluate: bool) -> (outcome: Option<OsAuth>)
    ensures
        outcome == (if can_evaluate {
            None
        } else {
            Some(OsAuth::Unavailable)
        }),
{
    if can_evaluate {
        None
    } else {
        Some(OsAuth::Unavailable)
    }
}

/// The outcome of a macOS LocalAuthentication prompt, given the reply it sent
/// (`None` when no reply arrived): only a successful reply is `Ok`.
pub fn local_auth_reply_outcome(reply: Option<bool>) -> (outcome: OsAuth)
    ensures
        outcome == (if reply == Some(true) {
            OsAuth::Verified
        } else {
            OsAuth::Cancelled
        }),
{
    match reply {
        Some(true) => OsAuth::Verified,
        _ => OsAuth::Cancelled,
    }
}


/// The reported statuses: a verified user is `"unlocked"`, an unavailable
/// prompt is `"pin_required"`, a dismissed one is `"cancelled"`.
pub proof fn lemma_status_texts()
    ensures
        status_of(OsAuth::Verified) == "unlocked"@,
        status_of(OsAuth::Unavailable) == "pin_required"@,
        status_of(OsAuth::Cancelled) == "cancelled"@,
{
}

} // verus!
