//! The phase state machine's states and clock.

use vstd::prelude::*;

verus! {

/// The tag of a phase, without any per-phase data.
#[derive(Clone, Copy, PartialEq, Eq, Structural, Debug)]
pub enum PhaseType {
    Morning,
    Discussion,
    Nomination,
    Testimony,
    Judgement,
    Evening,
    Night,
    Obituary,
}

/// The current phase together with its data. A day runs
/// Morning, Discussion, Nomination, (conditionally Testimony and Judgement,
/// repeated while trials remain), Evening, Night, Obituary, then the next
/// day's Morning.
#[derive(Clone, Copy, PartialEq, Eq, Structural, Debug)]
pub enum PhaseState {
    Morning,
    Discussion,
    Nomination { trials_left: u8 },
    Testimony { trials_left: u8, player_on_trial: u8 },
    Judgement { trials_left: u8, player_on_trial: u8 },
    Evening,
    Night,
    Obituary,
}

impl PhaseState {
    /// The tag of this phase state.
    pub open spec fn spec_phase(&self) -> PhaseType {
        match self {
            PhaseState::Morning => PhaseType::Morning,
            PhaseState::Discussion => PhaseType::Discussion,
            PhaseState::Nomination { .. } => PhaseType::Nomination,
            PhaseState::Testimony { .. } => PhaseType::Testimony,
            PhaseState::Judgement { .. } => PhaseType::Judgement,
            PhaseState::Evening => PhaseType::Evening,
            PhaseState::Night => PhaseType::Night,
            PhaseState::Obituary => PhaseType::Obituary,
        }
    }

    /// The tag of this phase state.
    #[verifier::when_used_as_spec(spec_phase)]
    pub fn phase(&self) -> (t: PhaseType)
        ensures
            t == self.spec_phase(),
    {
        match self {
            PhaseState::Morning => PhaseType::Morning,
            PhaseState::Discussion => PhaseType::Discussion,
            PhaseState::Nomination { .. } => PhaseType::Nomination,
            PhaseState::Testimony { .. } => PhaseType::Testimony,
            PhaseState::Judgement { .. } => PhaseType::Judgement,
            PhaseState::Evening => PhaseType::Evening,
            PhaseState::Night => PhaseType::Night,
            PhaseState::Obituary => PhaseType::Obituary,
        }
    }

    /// Whether the phase belongs to the day part of the cycle.
    pub open spec fn spec_is_day(&self) -> bool {
        !(self.spec_phase() == PhaseType::Night)
    }

    /// Whether the phase belongs to the day part of the cycle.
    #[verifier::when_used_as_spec(spec_is_day)]
    pub fn is_day(&self) -> (r: bool)
        ensures
            r == self.spec_is_day(),
    {
        !(self.phase() == PhaseType::Night)
    }

    /// Whether the phase is the night phase.
    pub open spec fn spec_is_night(&self) -> bool {
        self.spec_phase() == PhaseType::Night
    }

    /// Whether the phase is the night phase.
    #[verifier::when_used_as_spec(spec_is_night)]
    pub fn is_night(&self) -> (r: bool)
        ensures
            r == self.spec_is_night(),
    {
        self.phase() == PhaseType::Night
    }
}

/// Owns the current phase, the day counter and the phase clock.
/// Time is counted in whole seconds of coarse wall-clock time.
#[derive(Clone, Copy, PartialEq, Eq, Structural, Debug)]
pub struct PhaseStateMachine {
    pub current_state: PhaseState,
    /// Monotonically increasing; saturates at `u8::MAX`, which forces game
    /// termination (stalemate cutoff) rather than overflowing.
    pub day_number: u8,
    /// Seconds remaining in the current phase; never negative by construction.
    pub time_remaining: u32,
}

impl PhaseStateMachine {
    /// A machine at the first evening of day one with `initial_time` on the
    /// clock.
    pub fn new(initial_time: u32) -> (m: PhaseStateMachine)
        ensures
            m == (PhaseStateMachine {
                current_state: PhaseState::Evening,
                day_number: 1u8,
                time_remaining: initial_time,
            }),
    {
        PhaseStateMachine {
            current_state: PhaseState::Evening,
            day_number: 1,
            time_remaining: initial_time,
        }
    }
}

} // verus!
