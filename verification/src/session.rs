use vstd::prelude::*;

verus! {

/// Whether hidden photos are unlocked for the current session.
///
/// The flag lives in memory only: a fresh state is locked, so every start of
/// the application begins locked.
pub struct UnlockState {
    unlocked: bool,
}

impl View for UnlockState {
    type V = bool;

    /// `true` while the session is unlocked.
    closed spec fn view(&self) -> bool {
        self.unlocked
    }
}

impl UnlockState {
    /// A locked session.
    pub fn new() -> (state: Self)
        ensures
            !state@,
    {
        UnlockState { unlocked: false }
    }
}

/// Whether the session is unlocked.
pub fn is_unlocked(state: &UnlockState) -> (unlocked: bool)
    ensures
        unlocked == state@,
{
    state.unlocked
}

/// Unlocks the session.
pub fn unlock(state: &mut UnlockState)
    ensures
        final(state)@,
{
    state.unlocked = true;
}

/// The unlock flag, as reported to the user interface.
pub fn hidden_unlock_state(state: &UnlockState) -> (unlocked: bool)
    ensures
        unlocked == state@,
{
    is_unlocked(state)
}

/// Locks the session again.
pub fn lock_hidden(state: &mut UnlockState)
    ensures
        !final(state)@,
{
    state.unlocked = false;
}

} // verus!
