//! The recording state controller: a two-state cell flipped by the
//! operator and observed by the capture engine.

use vstd::prelude::*;

verus! {

/// The recording lifecycle has exactly two states.
#[derive(Clone, Copy, Debug, PartialEq, Eq, Structural)]
pub enum RecordingState {
    Idle,
    Listening,
}

/// The other of the two states.
pub open spec fn flipped(s: RecordingState) -> RecordingState {
    match s {
        RecordingState::Idle => RecordingState::Listening,
        RecordingState::Listening => RecordingState::Idle,
    }
}

/// The state reached after `n` toggles from the initial `Idle` state.
pub open spec fn state_after_toggles(n: nat) -> RecordingState
    decreases n,
{
    if n == 0 {
        RecordingState::Idle
    } else {
        flipped(state_after_toggles((n - 1) as nat))
    }
}

/// Toggling strictly alternates the reported state: starting from `Idle`,
/// the state after `n` toggles is `Idle` for even `n` and `Listening` for
/// odd `n`, whatever happens between the toggles.
pub proof fn lemma_toggles_alternate(n: nat)
    ensures
        state_after_toggles(n) == if n % 2 == 0 {
            RecordingState::Idle
        } else {
            RecordingState::Listening
        },
    decreases n,
{
    if n > 0 {
        lemma_toggles_alternate((n - 1) as nat);
    }
}

/// The controller owning the shared recording flag. The operator's
/// control surface toggles it; the capture engine reads it.
pub struct RecordingController {
    state: RecordingState,
}

impl View for RecordingController {
    type V = RecordingState;

    closed spec fn view(&self) -> RecordingState {
        self.state
    }
}

impl RecordingController {
    /// A fresh controller starts in the `Idle` state.
    pub fn new() -> (r: RecordingController)
        ensures
            r@ == RecordingState::Idle,
    {
        RecordingController { state: RecordingState::Idle }
    }

    /// Atomically flips `Idle` and `Listening` and reports the new state.
    pub fn toggle(&mut self) -> (r: RecordingState)
        ensures
            final(self)@ == flipped(old(self)@),
            r == final(self)@,
    {
        let next = match self.state {
            RecordingState::Idle => RecordingState::Listening,
            RecordingState::Listening => RecordingState::Idle,
        };
        self.state = next;
        next
    }

    /// A point-in-time read of the state.
    pub fn current_state(&self) -> (r: RecordingState)
        ensures
            r == self@,
    {
        self.state
    }
}

} // verus!
