//! The startup guard: a two-phase lock that lets one boot sequence run at a time.

use vstd::prelude::*;

verus! {

/// The two phases of the startup guard.
#[derive(Clone, Copy, Debug, PartialEq, Eq, Structural)]
pub enum Phase {
    /// No boot sequence is running.
    Idle,
    /// A boot sequence has begun and has not ended yet.
    Initializing,
}

impl Phase {
    /// The guard after a `begin`, and whether that `begin` started a boot sequence.
    pub open spec fn begin(self) -> (Phase, bool) {
        (Phase::Initializing, self == Phase::Idle)
    }

    /// The guard after an `end`.
    pub open spec fn end(self) -> Phase {
        Phase::Idle
    }
}

/// Re-entrancy guard of the boot sequence.
pub struct StartupState {
    initializing: bool,
}

impl View for StartupState {
    type V = Phase;

    closed spec fn view(&self) -> Phase {
        if self.initializing {
            Phase::Initializing
        } else {
            Phase::Idle
        }
    }
}

impl StartupState {
    /// A guard in the idle phase.
    pub fn new() -> (guard: StartupState)
        ensures
            guard@ == Phase::Idle,
    {
        StartupState { initializing: false }
    }

    /// Tries to enter the boot sequence. Returns `true` and moves to
    /// `Initializing` when the guard was idle; returns `false` and leaves the
    /// guard as it is when a boot sequence is already running.
    pub fn begin(&mut self) -> (started: bool)
        ensures
            final(self)@ == old(self)@.begin().0,
            started == old(self)@.begin().1,
    {
        if self.initializing {
            return false;
        }
        self.initializing = true;
        true
    }

    /// Leaves the boot sequence, whether it succeeded or failed.
    pub fn end(&mut self)
        ensures
            final(self)@ == old(self)@.end(),
    {
        self.initializing = false;
    }
}

impl Default for StartupState {
    /// A guard in the idle phase.
    fn default() -> (guard: StartupState)
        ensures
            guard@ == Phase::Idle,
    {
        StartupState::new()
    }
}

/// Of two attempts to begin on an idle guard, whichever comes first starts
/// and the other does not; and a second attempt never starts on its own.
pub proof fn lemma_one_of_two_begins(guard: Phase)
    ensures
        guard == Phase::Idle ==> guard.begin().1 && !guard.begin().0.begin().1,
        !guard.begin().0.begin().1,
        guard.begin().0.begin().0 == guard.begin().0,
{
}

/// After an `end`, whatever the guard was, the next `begin` starts.
pub proof fn lemma_begin_after_end(guard: Phase)
    ensures
        guard.end() == Phase::Idle,
        guard.end().begin().1,
{
}

} // verus!
